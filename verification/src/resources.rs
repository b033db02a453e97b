use vstd::prelude::*;

verus! {

/// How many screen pixels each simulation cell covers along each axis.
/// The simulation grid is the window size divided by this factor, so a valid
/// factor is never zero.
#[derive(Clone, Copy, Debug, PartialEq, Eq, Structural)]
pub struct DisplayFactor(pub u32);

impl DisplayFactor {
    /// Stores `value` only where it differs from the current factor, so that a
    /// settings panel that reports the same value every frame does not count as a
    /// change. Returns whether the factor changed.
    pub fn update_if_changed(&mut self, value: DisplayFactor) -> (changed: bool)
        ensures
            changed == (old(self).0 != value.0),
            *final(self) == value,
    {
        if self.0 != value.0 {
            *self = value;
            true
        } else {
            false
        }
    }
}

impl Default for DisplayFactor {
    /// One screen pixel per simulation cell.
    fn default() -> (d: Self)
        ensures
            d.0 == 1,
    {
        DisplayFactor(1)
    }
}

/// Jacobi iteration counts of the three iterative solves of each frame.
#[derive(Clone, Copy, Debug, PartialEq, Eq, Structural)]
pub struct Iterations {
    pub density_diffusion: usize,
    pub velocity_diffusion: usize,
    pub pressure_solve: usize,
}

impl Default for Iterations {
    /// Ten iterations for each solve.
    fn default() -> (it: Self)
        ensures
            it.density_diffusion == 10,
            it.velocity_diffusion == 10,
            it.pressure_solve == 10,
    {
        Iterations { density_diffusion: 10, velocity_diffusion: 10, pressure_solve: 10 }
    }
}

/// Which of the two textures of a ping-pong pair currently holds the live data.
#[derive(Clone, Copy, Debug, PartialEq, Eq, Structural)]
pub enum PingPong {
    A,
    B,
}

impl PingPong {
    /// The slot that a pair of bind groups is indexed by: `A` is 0, `B` is 1.
    pub open spec fn spec_index(self) -> nat {
        match self {
            PingPong::A => 0,
            PingPong::B => 1,
        }
    }

    /// The other side of the pair.
    pub open spec fn spec_swapped(self) -> PingPong {
        match self {
            PingPong::A => PingPong::B,
            PingPong::B => PingPong::A,
        }
    }

    pub fn index(self) -> (i: usize)
        ensures
            i == self.spec_index(),
            i < 2,
    {
        match self {
            PingPong::A => 0,
            PingPong::B => 1,
        }
    }

    pub fn swap(&mut self)
        ensures
            *final(self) == old(self).spec_swapped(),
    {
        *self = match *self {
            PingPong::A => PingPong::B,
            PingPong::B => PingPong::A,
        };
    }
}

/// Swapping a pair twice gives back the side it started on.
pub proof fn lemma_swap_twice(p: PingPong)
    ensures
        p.spec_swapped().spec_swapped() == p,
{
}

/// A swap always moves to the other slot: the slot read from and the slot written
/// to are never the same, and together they are the slots 0 and 1.
pub proof fn lemma_swap_other_slot(p: PingPong)
    ensures
        p.spec_swapped().spec_index() != p.spec_index(),
        p.spec_swapped().spec_index() + p.spec_index() == 1,
{
}

/// Distinct sides have distinct slots.
pub proof fn lemma_index_injective(p: PingPong, q: PingPong)
    ensures
        p.spec_index() == q.spec_index() <==> p == q,
{
}

impl Default for PingPong {
    /// A pair starts with its data in slot `A`.
    fn default() -> (p: Self)
        ensures
            p == PingPong::A,
    {
        PingPong::A
    }
}

/// Progress of the simulation pipeline: shaders still loading, the first frame
/// that fills the textures with their initial values, then one update per frame.
#[derive(Clone, Copy, Debug, PartialEq, Eq, Structural)]
pub enum FluidSimState {
    Loading,
    Init,
    Update,
}

impl Default for FluidSimState {
    fn default() -> (s: Self)
        ensures
            s == FluidSimState::Loading,
    {
        FluidSimState::Loading
    }
}

/// The live side of every ping-pong texture pair, and the reset generation that
/// the buffers were last initialised for.
#[derive(Clone, Copy, Debug, PartialEq, Eq, Structural)]
pub struct FluidSimBuffers {
    pub density: PingPong,
    pub dye: PingPong,
    pub velocity: PingPong,
    pub pressure: PingPong,
    pub reset_generation: u64,
}

impl Default for FluidSimBuffers {
    /// Every pair on slot `A`, generation 0.
    fn default() -> (b: Self)
        ensures
            b.density == PingPong::A,
            b.dye == PingPong::A,
            b.velocity == PingPong::A,
            b.pressure == PingPong::A,
            b.reset_generation == 0,
    {
        FluidSimBuffers {
            density: PingPong::default(),
            dye: PingPong::default(),
            velocity: PingPong::default(),
            pressure: PingPong::default(),
            reset_generation: 0,
        }
    }
}

} // verus!
