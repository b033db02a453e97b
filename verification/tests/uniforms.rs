use fluid_sim::resources::DisplayFactor;
use fluid_sim::ui::UiState;
use fluid_sim::uniforms::{
    gate_cursor_input, grid_dimensions, update_source_input, CursorHistory, CursorVelocity,
    SourceInput,
};

fn blank() -> SourceInput<(f32, f32)> {
    SourceInput {
        cursor_position: (0.0, 0.0),
        previous_cursor_position: (0.0, 0.0),
        cursor_velocity: CursorVelocity::Zero,
        density_source_active: 0,
        velocity_source_active: 0,
        density_stroke_continuous: 0,
        velocity_stroke_continuous: 0,
    }
}

#[test]
fn grid_is_window_divided_by_factor() {
    assert_eq!(grid_dimensions(1920, 1080, DisplayFactor(1)), (1920, 1080));
    assert_eq!(grid_dimensions(1920, 1080, DisplayFactor(2)), (960, 540));
    assert_eq!(grid_dimensions(1921, 1081, DisplayFactor(8)), (240, 135));
    assert_eq!(grid_dimensions(5, 7, DisplayFactor(8)), (0, 0));
}

#[test]
fn first_contact_has_no_velocity_and_no_continuity() {
    let mut u = blank();
    let mut h = CursorHistory::default();
    update_source_input(&mut u, &mut h, Some((0.25, 0.5)), true, false, true);
    assert_eq!(u.cursor_position, (0.25, 0.5));
    assert_eq!(u.previous_cursor_position, (0.25, 0.5));
    assert_eq!(u.cursor_velocity, CursorVelocity::Zero);
    assert_eq!(u.density_source_active, 1);
    assert_eq!(u.velocity_source_active, 0);
    assert_eq!(u.density_stroke_continuous, 0);
    assert_eq!(u.velocity_stroke_continuous, 0);
    assert_eq!(h, CursorHistory { position: Some((0.25, 0.5)), density_active: true, velocity_active: false });
}

#[test]
fn second_frame_continues_held_strokes() {
    let mut u = blank();
    let mut h = CursorHistory::default();
    update_source_input(&mut u, &mut h, Some((0.25, 0.5)), true, true, true);
    update_source_input(&mut u, &mut h, Some((0.5, 0.5)), true, false, true);
    assert_eq!(u.previous_cursor_position, (0.25, 0.5));
    assert_eq!(u.cursor_position, (0.5, 0.5));
    assert_eq!(u.cursor_velocity, CursorVelocity::Displacement { from: (0.25, 0.5), to: (0.5, 0.5) });
    assert_eq!(u.density_stroke_continuous, 1);
    assert_eq!(u.velocity_stroke_continuous, 0);
    assert_eq!(u.velocity_source_active, 0);
}

#[test]
fn paused_time_gives_zero_velocity() {
    let mut u = blank();
    let mut h = CursorHistory::default();
    update_source_input(&mut u, &mut h, Some((0.1, 0.1)), false, true, true);
    update_source_input(&mut u, &mut h, Some((0.2, 0.2)), false, true, false);
    assert_eq!(u.cursor_velocity, CursorVelocity::Zero);
    assert_eq!(u.velocity_stroke_continuous, 1);
}

#[test]
fn leaving_canvas_clears_and_ends_strokes() {
    let mut u = blank();
    let mut h = CursorHistory::default();
    update_source_input(&mut u, &mut h, Some((0.3, 0.3)), true, true, true);
    update_source_input(&mut u, &mut h, None, true, true, true);
    assert_eq!(u.cursor_position, (0.3, 0.3));
    assert_eq!(u.cursor_velocity, CursorVelocity::Zero);
    assert_eq!(u.density_source_active, 0);
    assert_eq!(u.velocity_source_active, 0);
    assert_eq!(u.density_stroke_continuous, 0);
    assert_eq!(u.velocity_stroke_continuous, 0);
    assert_eq!(h, CursorHistory::default());
    update_source_input(&mut u, &mut h, Some((0.6, 0.6)), true, true, true);
    assert_eq!(u.previous_cursor_position, (0.6, 0.6));
    assert_eq!(u.density_stroke_continuous, 0);
    assert_eq!(u.velocity_stroke_continuous, 0);
}

#[test]
fn menu_blocks_cursor_input() {
    assert_eq!(gate_cursor_input(Some((0.5f32, 0.5f32)), UiState::Canvas), Some((0.5, 0.5)));
    assert_eq!(gate_cursor_input(Some((0.5f32, 0.5f32)), UiState::Menu), None);
    assert_eq!(gate_cursor_input(None::<(f32, f32)>, UiState::Canvas), None);
}

#[test]
fn grid_scaled_back_fits_the_window() {
    for (w, f) in [(1921u32, 8u32), (1080, 3), (7, 8), (0, 5), (u32::MAX, 7)] {
        let (g, _) = grid_dimensions(w, w, DisplayFactor(f));
        assert!((g as u64) * (f as u64) <= w as u64);
        assert!((w as u64) < (g as u64 + 1) * (f as u64));
    }
}

#[test]
fn flags_stay_consistent_over_a_session() {
    let mut u = blank();
    let mut h = CursorHistory::default();
    let frames: [(Option<(f32, f32)>, bool, bool); 6] = [
        (Some((0.1, 0.1)), true, false),
        (Some((0.2, 0.1)), true, true),
        (Some((0.3, 0.1)), false, true),
        (None, true, true),
        (Some((0.4, 0.1)), true, true),
        (Some((0.5, 0.1)), true, true),
    ];
    for (pos, d, v) in frames {
        update_source_input(&mut u, &mut h, pos, d, v, true);
        assert!(u.density_source_active <= 1 && u.velocity_source_active <= 1);
        assert!(u.density_stroke_continuous <= u.density_source_active);
        assert!(u.velocity_stroke_continuous <= u.velocity_source_active);
    }
    assert_eq!(u.density_stroke_continuous, 1);
    assert_eq!(u.velocity_stroke_continuous, 1);
}

#[test]
fn menu_state_clears_sources_through_the_gate() {
    let mut u = blank();
    let mut h = CursorHistory::default();
    update_source_input(&mut u, &mut h, Some((0.5, 0.5)), true, true, true);
    let gated = gate_cursor_input(Some((0.6f32, 0.5f32)), UiState::Menu);
    update_source_input(&mut u, &mut h, gated, true, true, true);
    assert_eq!(u.density_source_active, 0);
    assert_eq!(u.velocity_source_active, 0);
    assert_eq!(u.cursor_velocity, CursorVelocity::Zero);
    assert_eq!(h, CursorHistory::default());
}
