use vstd::prelude::*;

use crate::resources::DisplayFactor;
use crate::ui::UiState;

verus! {

/// Size of the simulation grid for a window of `window_width` by `window_height`
/// pixels: each axis divided by the display factor, rounded down.
pub fn grid_dimensions(
    window_width: u32,
    window_height: u32,
    display_factor: DisplayFactor,
) -> (dims: (u32, u32))
    requires
        display_factor.0 > 0,
    ensures
        dims.0 == window_width / display_factor.0,
        dims.1 == window_height / display_factor.0,
{
    (window_width / display_factor.0, window_height / display_factor.0)
}

/// The grid covers the window as far as whole cells fit: each axis, scaled back by
/// the factor, is at most the window's and less than one cell short of it.
pub proof fn lemma_grid_covers_window(window_width: u32, factor: u32)
    requires
        factor > 0,
    ensures
        (window_width / factor) * factor <= window_width,
        window_width < (window_width / factor + 1) * factor,
{
    assert((window_width / factor) * factor <= window_width
        && window_width < (window_width / factor + 1) * factor) by (nonlinear_arith)
        requires
            factor > 0,
    ;
}

/// At a factor of one the grid has the window's size.
pub proof fn lemma_grid_unit_factor(window_width: u32)
    ensures
        window_width / 1u32 == window_width,
{
}

/// What the pointer did on earlier frames, as far as the source-adding pass needs
/// it: where it was over the canvas, and which buttons were held there.
#[derive(Clone, Copy, Debug, PartialEq, Eq)]
pub struct CursorHistory<P> {
    pub position: Option<P>,
    pub density_active: bool,
    pub velocity_active: bool,
}

impl<P> CursorHistory<P> {
    /// No earlier position and no button held.
    pub open spec fn is_empty(self) -> bool {
        &&& self.position is None
        &&& !self.density_active
        &&& !self.velocity_active
    }

}

impl<P> Default for CursorHistory<P> {
    /// An empty history.
    fn default() -> (h: Self)
        ensures
            h.is_empty(),
    {
        CursorHistory { position: None, density_active: false, velocity_active: false }
    }
}

/// How the cursor velocity of a frame is obtained: zero, or the displacement from
/// the earlier position to the current one divided by the frame time.
#[derive(Clone, Copy, Debug, PartialEq, Eq)]
pub enum CursorVelocity<P> {
    Zero,
    Displacement { from: P, to: P },
}

/// The pointer-driven part of the uniforms of the source-adding pass. Positions
/// are relative to the canvas; the flags are 0 or 1, as the shader reads them.
#[derive(Clone, Copy, Debug, PartialEq, Eq)]
pub struct SourceInput<P> {
    pub cursor_position: P,
    pub previous_cursor_position: P,
    pub cursor_velocity: CursorVelocity<P>,
    pub density_source_active: u32,
    pub velocity_source_active: u32,
    pub density_stroke_continuous: u32,
    pub velocity_stroke_continuous: u32,
}

/// A boolean as a shader flag.
pub open spec fn flag(b: bool) -> u32 {
    if b {
        1
    } else {
        0
    }
}

/// The uniforms after a frame. With no cursor over the canvas the velocity and all
/// flags are cleared and the positions kept. With a cursor, the previous position
/// is the last one seen (or the current one on the first frame of contact), the
/// velocity is the displacement from the last position where time advanced, and a
/// stroke is continuous where its button is held on this frame and was held on the
/// previous one.
pub open spec fn next_source_input<P>(
    uniforms: SourceInput<P>,
    history: CursorHistory<P>,
    cursor_position: Option<P>,
    density_active: bool,
    velocity_active: bool,
    time_advanced: bool,
) -> SourceInput<P> {
    match cursor_position {
        None => SourceInput {
            cursor_velocity: CursorVelocity::Zero,
            density_source_active: 0,
            velocity_source_active: 0,
            density_stroke_continuous: 0,
            velocity_stroke_continuous: 0,
            ..uniforms
        },
        Some(pos) => SourceInput {
            cursor_position: pos,
            previous_cursor_position: match history.position {
                Some(prev) => prev,
                None => pos,
            },
            cursor_velocity: match history.position {
                Some(prev) => if time_advanced {
                    CursorVelocity::Displacement { from: prev, to: pos }
                } else {
                    CursorVelocity::Zero
                },
                None => CursorVelocity::Zero,
            },
            density_source_active: flag(density_active),
            velocity_source_active: flag(velocity_active),
            density_stroke_continuous: flag(density_active && history.density_active),
            velocity_stroke_continuous: flag(velocity_active && history.velocity_active),
        },
    }
}

/// The history after a frame: emptied where no cursor is over the canvas, else the
/// current position and buttons.
pub open spec fn next_history<P>(
    cursor_position: Option<P>,
    density_active: bool,
    velocity_active: bool,
) -> CursorHistory<P> {
    match cursor_position {
        None => CursorHistory { position: None, density_active: false, velocity_active: false },
        Some(pos) => CursorHistory { position: Some(pos), density_active, velocity_active },
    }
}

/// Turns one frame of pointer input into the uniforms of the source-adding pass and
/// records it in the history. `cursor_position` is the pointer's position relative
/// to the canvas where it is over the canvas and the canvas has the input;
/// `time_advanced` says whether the frame time is positive.
pub fn update_source_input<P: Copy>(
    uniforms: &mut SourceInput<P>,
    history: &mut CursorHistory<P>,
    cursor_position: Option<P>,
    density_active: bool,
    velocity_active: bool,
    time_advanced: bool,
)
    ensures
        *final(uniforms) == next_source_input(
            *old(uniforms),
            *old(history),
            cursor_position,
            density_active,
            velocity_active,
            time_advanced,
        ),
        *final(history) == next_history(cursor_position, density_active, velocity_active),
        cursor_position is Some ==> {
            &&& (final(uniforms).density_source_active == 1) == density_active
            &&& (final(uniforms).density_source_active == 0) == !density_active
            &&& (final(uniforms).velocity_source_active == 1) == velocity_active
            &&& (final(uniforms).velocity_source_active == 0) == !velocity_active
            &&& (final(uniforms).density_stroke_continuous == 1) == (density_active
                && old(history).density_active)
            &&& (final(uniforms).density_stroke_continuous == 0) == !(density_active
                && old(history).density_active)
            &&& (final(uniforms).velocity_stroke_continuous == 1) == (velocity_active
                && old(history).velocity_active)
            &&& (final(uniforms).velocity_stroke_continuous == 0) == !(velocity_active
                && old(history).velocity_active)
        },
        cursor_position matches Some(pos) ==> {
            &&& final(uniforms).cursor_position == pos
            &&& final(history).position == Some(pos)
            &&& final(history).density_active == density_active
            &&& final(history).velocity_active == velocity_active
            &&& (old(history).position is None ==> final(uniforms).previous_cursor_position == pos
                && final(uniforms).cursor_velocity == CursorVelocity::<P>::Zero)
            &&& (old(history).position matches Some(prev) ==> {
                &&& final(uniforms).previous_cursor_position == prev
                &&& time_advanced ==> final(uniforms).cursor_velocity
                    == (CursorVelocity::Displacement { from: prev, to: pos })
                &&& !time_advanced ==> final(uniforms).cursor_velocity
                    == CursorVelocity::<P>::Zero
            })
        },
        cursor_position is None ==> {
            &&& final(history).position is None
            &&& !final(history).density_active
            &&& !final(history).velocity_active
            &&& final(uniforms).cursor_velocity == CursorVelocity::<P>::Zero
            &&& final(uniforms).cursor_position == old(uniforms).cursor_position
            &&& final(uniforms).previous_cursor_position == old(uniforms).previous_cursor_position
            &&& final(uniforms).density_source_active == 0
            &&& final(uniforms).velocity_source_active == 0
            &&& final(uniforms).density_stroke_continuous == 0
            &&& final(uniforms).velocity_stroke_continuous == 0
        },
{
    match cursor_position {
        None => {
            uniforms.cursor_velocity = CursorVelocity::Zero;
            uniforms.density_source_active = 0;
            uniforms.velocity_source_active = 0;
            uniforms.density_stroke_continuous = 0;
            uniforms.velocity_stroke_continuous = 0;
            *history = CursorHistory::default();
        },
        Some(pos) => {
            uniforms.previous_cursor_position = match history.position {
                Some(prev) => prev,
                None => pos,
            };
            uniforms.cursor_position = pos;
            uniforms.cursor_velocity = match history.position {
                Some(prev) => if time_advanced {
                    CursorVelocity::Displacement { from: prev, to: pos }
                } else {
                    CursorVelocity::Zero
                },
                None => CursorVelocity::Zero,
            };
            uniforms.density_source_active = if density_active { 1 } else { 0 };
            uniforms.velocity_source_active = if velocity_active { 1 } else { 0 };
            uniforms.density_stroke_continuous = if density_active && history.density_active {
                1
            } else {
                0
            };
            uniforms.velocity_stroke_continuous = if velocity_active && history.velocity_active {
                1
            } else {
                0
            };
            history.position = Some(pos);
            history.density_active = density_active;
            history.velocity_active = velocity_active;
        },
    }
}

/// The flags hold shader booleans whose strokes are only continuous while their
/// sources are active.
pub open spec fn flags_consistent<P>(u: SourceInput<P>) -> bool {
    &&& u.density_source_active <= 1
    &&& u.velocity_source_active <= 1
    &&& u.density_stroke_continuous <= u.density_source_active
    &&& u.velocity_stroke_continuous <= u.velocity_source_active
}

/// Every frame leaves the flags consistent, whatever the uniforms and the history
/// held before.
pub proof fn lemma_update_keeps_flags_consistent<P>(
    uniforms: SourceInput<P>,
    history: CursorHistory<P>,
    cursor_position: Option<P>,
    density_active: bool,
    velocity_active: bool,
    time_advanced: bool,
)
    ensures
        flags_consistent(
            next_source_input(
                uniforms,
                history,
                cursor_position,
                density_active,
                velocity_active,
                time_advanced,
            ),
        ),
{
}

/// With the cursor over the canvas, dye is added exactly while the left (density)
/// button is held and velocity exactly while the right (velocity) button is held:
/// each source follows its own button alone, whatever the other button and the
/// earlier frames did. Hovering with no button held adds nothing.
pub proof fn lemma_sources_follow_buttons<P>(
    uniforms: SourceInput<P>,
    history: CursorHistory<P>,
    pos: P,
    density_active: bool,
    velocity_active: bool,
    time_advanced: bool,
)
    ensures
        ({
            let u = next_source_input(
                uniforms,
                history,
                Some(pos),
                density_active,
                velocity_active,
                time_advanced,
            );
            &&& (u.density_source_active == 1) == density_active
            &&& (u.density_source_active == 0) == !density_active
            &&& (u.velocity_source_active == 1) == velocity_active
            &&& (u.velocity_source_active == 0) == !velocity_active
        }),
{
}

/// Changing one button changes only its own source: the density source does not
/// depend on the velocity button, the position, the uniforms or the history, nor
/// the velocity source on the density button or any of the others.
pub proof fn lemma_sources_independent<P>(
    u1: SourceInput<P>,
    h1: CursorHistory<P>,
    u2: SourceInput<P>,
    h2: CursorHistory<P>,
    pos1: P,
    pos2: P,
    density_1: bool,
    density_2: bool,
    velocity_1: bool,
    velocity_2: bool,
    time_1: bool,
    time_2: bool,
)
    ensures
        next_source_input(u1, h1, Some(pos1), density_1, velocity_1, time_1).density_source_active
            == next_source_input(
            u2,
            h2,
            Some(pos2),
            density_1,
            velocity_2,
            time_2,
        ).density_source_active,
        next_source_input(u1, h1, Some(pos1), density_1, velocity_1, time_1).velocity_source_active
            == next_source_input(
            u2,
            h2,
            Some(pos2),
            density_2,
            velocity_1,
            time_2,
        ).velocity_source_active,
{
}

/// A stroke is continuous exactly when its button is held on this frame and was
/// held on the previous frame with the cursor over the canvas.
pub proof fn lemma_strokes_follow_held_buttons<P>(
    uniforms: SourceInput<P>,
    history: CursorHistory<P>,
    pos: P,
    density_active: bool,
    velocity_active: bool,
    time_advanced: bool,
)
    ensures
        ({
            let u = next_source_input(
                uniforms,
                history,
                Some(pos),
                density_active,
                velocity_active,
                time_advanced,
            );
            &&& (u.density_stroke_continuous == 1) == (density_active && history.density_active)
            &&& (u.density_stroke_continuous == 0) == !(density_active && history.density_active)
            &&& (u.velocity_stroke_continuous == 1) == (velocity_active
                && history.velocity_active)
            &&& (u.velocity_stroke_continuous == 0) == !(velocity_active
                && history.velocity_active)
            &&& u.cursor_position == pos
            &&& u.previous_cursor_position == match history.position {
                Some(prev) => prev,
                None => pos,
            }
        }),
{
}

/// Over two frames with the cursor on the canvas, the second frame continues each
/// stroke exactly when its button was held on both frames, starts from the first
/// frame's position, and moves by the displacement between the two positions
/// where time advanced.
pub proof fn lemma_two_frames_on_canvas<P>(
    uniforms: SourceInput<P>,
    history: CursorHistory<P>,
    first: P,
    second: P,
    density_first: bool,
    velocity_first: bool,
    density_second: bool,
    velocity_second: bool,
    time_first: bool,
    time_second: bool,
)
    ensures
        ({
            let u1 = next_source_input(
                uniforms,
                history,
                Some(first),
                density_first,
                velocity_first,
                time_first,
            );
            let h1 = next_history(Some(first), density_first, velocity_first);
            let u2 = next_source_input(
                u1,
                h1,
                Some(second),
                density_second,
                velocity_second,
                time_second,
            );
            &&& u2.cursor_position == second
            &&& u2.previous_cursor_position == first
            &&& u2.density_stroke_continuous == flag(density_first && density_second)
            &&& u2.velocity_stroke_continuous == flag(velocity_first && velocity_second)
            &&& u2.cursor_velocity == if time_second {
                CursorVelocity::Displacement { from: first, to: second }
            } else {
                CursorVelocity::Zero
            }
        }),
{
}

/// A frame with no cursor over the canvas ends every stroke: on the next frame
/// with a cursor no stroke is continuous, the previous position is the current one
/// and the velocity is zero, whatever the buttons.
pub proof fn lemma_leaving_canvas_ends_strokes<P>(
    uniforms: SourceInput<P>,
    history: CursorHistory<P>,
    back: P,
    density_active: bool,
    velocity_active: bool,
    time_off: bool,
    time_back: bool,
)
    ensures
        ({
            let u1 = next_source_input(
                uniforms,
                history,
                None,
                density_active,
                velocity_active,
                time_off,
            );
            let h1 = next_history(None::<P>, density_active, velocity_active);
            let u2 = next_source_input(
                u1,
                h1,
                Some(back),
                density_active,
                velocity_active,
                time_back,
            );
            &&& h1.is_empty()
            &&& u1.density_source_active == 0 && u1.velocity_source_active == 0
            &&& u1.cursor_velocity == CursorVelocity::<P>::Zero
            &&& u2.density_stroke_continuous == 0
            &&& u2.velocity_stroke_continuous == 0
            &&& u2.previous_cursor_position == back
            &&& u2.cursor_velocity == CursorVelocity::<P>::Zero
        }),
{
}

/// The pointer position that reaches the simulation: the position over the canvas
/// while the canvas has the input, and none while the menu has it.
pub open spec fn gated_cursor<P>(cursor_position: Option<P>, ui_state: UiState) -> Option<P> {
    if ui_state == UiState::Canvas {
        cursor_position
    } else {
        None
    }
}

/// Keeps the pointer position only while the canvas has the input.
pub fn gate_cursor_input<P>(cursor_position: Option<P>, ui_state: UiState) -> (gated: Option<P>)
    ensures
        gated == gated_cursor(cursor_position, ui_state),
{
    match ui_state {
        UiState::Canvas => cursor_position,
        UiState::Menu => None,
    }
}

/// While the menu has the input no source is active and the cursor has no
/// velocity, whatever the pointer and the buttons do.
pub proof fn lemma_menu_blocks_sources<P>(
    uniforms: SourceInput<P>,
    history: CursorHistory<P>,
    cursor_position: Option<P>,
    density_active: bool,
    velocity_active: bool,
    time_advanced: bool,
)
    ensures
        ({
            let gated = gated_cursor(cursor_position, UiState::Menu);
            let u = next_source_input(
                uniforms,
                history,
                gated,
                density_active,
                velocity_active,
                time_advanced,
            );
            &&& u.density_source_active == 0
            &&& u.velocity_source_active == 0
            &&& u.cursor_velocity == CursorVelocity::<P>::Zero
            &&& next_history(gated, density_active, velocity_active).is_empty()
        }),
{
}

} // verus!
