//! What toggling the application window means.
use vstd::prelude::*;

verus! {

/// What to do with the window when the chord fires.
#[derive(Clone, Copy, Debug, PartialEq, Eq, Structural)]
pub enum WindowAction {
    /// The window is showing: hide it.
    Hide,
    /// The window is hidden: show it and give it the focus.
    ShowAndFocus,
}

/// The action that toggles a window whose visibility was asked for.
/// `None` stands for a query that failed; the window then counts as hidden.
pub open spec fn toggle_of(visible: Option<bool>) -> WindowAction {
    if visible == Some(true) {
        WindowAction::Hide
    } else {
        WindowAction::ShowAndFocus
    }
}

/// Chooses between hiding and showing the window.
pub fn toggle_action(visible: Option<bool>) -> (action: WindowAction)
    ensures
        action == toggle_of(visible),
{
    match visible {
        Some(true) => WindowAction::Hide,
        _ => WindowAction::ShowAndFocus,
    }
}

} // verus!
