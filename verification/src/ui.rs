use vstd::prelude::*;

verus! {

/// Who the pointer and keyboard belong to: the fluid canvas, or the settings menu.
#[derive(Clone, Copy, Debug, PartialEq, Eq, Structural)]
pub enum UiState {
    Canvas,
    Menu,
}

impl Default for UiState {
    fn default() -> (s: Self)
        ensures
            s == UiState::Canvas,
    {
        UiState::Canvas
    }
}

/// The menu wants the input when the pointer is over one of its areas, when it is
/// using the pointer (a drag that started on it), or when it wants the keyboard.
pub open spec fn menu_wants_input(
    is_pointer_over_area: bool,
    is_using_pointer: bool,
    wants_keyboard_input: bool,
) -> bool {
    is_using_pointer || wants_keyboard_input || is_pointer_over_area
}

/// The state that matches what the menu wants.
pub open spec fn desired_ui_state(menu_wants: bool) -> UiState {
    if menu_wants {
        UiState::Menu
    } else {
        UiState::Canvas
    }
}

/// The state after a transition: the requested one, or the current one where none
/// was requested.
pub open spec fn after_transition(current: UiState, next: Option<UiState>) -> UiState {
    match next {
        Some(s) => s,
        None => current,
    }
}

/// The transition requested for a frame: the state that matches what the menu
/// wants, or `None` where the current state already matches it.
pub open spec fn ui_transition(
    current: UiState,
    is_pointer_over_area: bool,
    is_using_pointer: bool,
    wants_keyboard_input: bool,
) -> Option<UiState> {
    let desired = desired_ui_state(
        menu_wants_input(is_pointer_over_area, is_using_pointer, wants_keyboard_input),
    );
    if current == desired {
        None
    } else {
        Some(desired)
    }
}

/// Decides, once per frame, whether the input moves between canvas and menu.
/// Returns the state to switch to, or `None` where the current state already
/// matches what the menu wants.
pub fn handle_ui_state(
    current: UiState,
    is_pointer_over_area: bool,
    is_using_pointer: bool,
    wants_keyboard_input: bool,
) -> (next: Option<UiState>)
    ensures
        next == ui_transition(current, is_pointer_over_area, is_using_pointer, wants_keyboard_input),
{
    let should_be_ui = is_using_pointer || wants_keyboard_input || is_pointer_over_area;
    match current {
        UiState::Canvas => {
            if should_be_ui {
                Some(UiState::Menu)
            } else {
                None
            }
        },
        UiState::Menu => {
            if !should_be_ui {
                Some(UiState::Canvas)
            } else {
                None
            }
        },
    }
}

/// After a transition the state is `Menu` exactly when the menu wants the input,
/// whatever the state was before; a transition that is requested always changes
/// the state.
pub proof fn lemma_transition_matches_menu(
    current: UiState,
    is_pointer_over_area: bool,
    is_using_pointer: bool,
    wants_keyboard_input: bool,
)
    ensures
        ({
            let next = ui_transition(
                current,
                is_pointer_over_area,
                is_using_pointer,
                wants_keyboard_input,
            );
            &&& (after_transition(current, next) == UiState::Menu) == menu_wants_input(
                is_pointer_over_area,
                is_using_pointer,
                wants_keyboard_input,
            )
            &&& next is Some ==> next != Some(current)
        }),
{
}

/// With the same input, the decision right after a transition requests nothing:
/// the state machine settles in one step.
pub proof fn lemma_transition_settles(
    current: UiState,
    is_pointer_over_area: bool,
    is_using_pointer: bool,
    wants_keyboard_input: bool,
)
    ensures
        ui_transition(
            after_transition(
                current,
                ui_transition(current, is_pointer_over_area, is_using_pointer, wants_keyboard_input),
            ),
            is_pointer_over_area,
            is_using_pointer,
            wants_keyboard_input,
        ) is None,
{
}

/// Whether the settings panel is shown after a toggle event.
pub open spec fn toggled(shown: bool) -> bool {
    !shown
}

/// The settings panel is shown or hidden on each toggle event: returns whether it
/// is shown after the event.
pub fn on_ui_toggle(shown: bool) -> (shown_after: bool)
    ensures
        shown_after == toggled(shown),
{
    !shown
}

/// Two toggle events leave the panel as it was.
pub proof fn lemma_toggle_twice(shown: bool)
    ensures
        toggled(toggled(shown)) == shown,
        toggled(shown) != shown,
{
}

} // verus!
