use vstd::prelude::*;

verus! {

/// A request to restart the simulation from its initial textures. Each request
/// moves the generation on; the render side restarts whenever the generation it
/// sees differs from the one its buffers were last initialised for.
#[derive(Clone, Copy, Debug, PartialEq, Eq, Structural)]
pub struct ResetSimulation {
    pub generation: u64,
}

/// The generation after one more reset request: one more, wrapping at the end of
/// the `u64` range.
pub open spec fn next_generation(generation: u64) -> u64 {
    if generation == u64::MAX {
        0
    } else {
        (generation + 1) as u64
    }
}

impl ResetSimulation {
    /// Records one reset request.
    pub fn request(&mut self)
        ensures
            final(self).generation == next_generation(old(self).generation),
    {
        self.generation = self.generation.wrapping_add(1);
    }
}

impl Default for ResetSimulation {
    fn default() -> (r: Self)
        ensures
            r.generation == 0,
    {
        ResetSimulation { generation: 0 }
    }
}

/// Every reset request is seen: the generation after a request always differs
/// from the one before it, also where it wraps.
pub proof fn lemma_request_changes_generation(generation: u64)
    ensures
        next_generation(generation) != generation,
{
}

} // verus!
