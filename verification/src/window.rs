//! What the toggle shortcut asks of the main window.
//!
//! The program asks the window whether it is visible, hands the answer to
//! [`toggle_action`], and carries out the request that comes back. The answer
//! may be a failure: the window system does not always say.

use vstd::prelude::*;

verus! {

/// The label under which the program finds its main window.
pub const MAIN_WINDOW: &'static str = "main";

/// The key combination that toggles the main window.
pub const TOGGLE_SHORTCUT: &'static str = "CmdOrCtrl+Shift+N";

/// The key combination that the program claims at startup without handling it.
pub const RESERVED_SHORTCUT: &'static str = "CmdOrCtrl+Shift+8";

/// A request to the main window.
#[derive(Clone, Copy, Debug, PartialEq, Eq, Structural)]
pub enum WindowAction {
    Show,
    Hide,
}

impl WindowAction {
    /// Whether the window is visible once the request has been carried out.
    pub open spec fn leaves_visible(self) -> bool {
        self is Show
    }
}

/// Whether a visibility query counts as "visible": only an answer that says
/// so does. A failed query counts as hidden.
pub open spec fn seen_visible<E>(query: Result<bool, E>) -> bool {
    query matches Ok(visible) && visible
}

/// The request that answers a press of the toggle shortcut: hide a window
/// seen visible, show any other.
pub open spec fn toggled<E>(query: Result<bool, E>) -> WindowAction {
    if seen_visible(query) {
        WindowAction::Hide
    } else {
        WindowAction::Show
    }
}

/// Decides what a press of the toggle shortcut asks of the main window, given
/// the outcome of asking the window whether it is visible.
pub fn toggle_action<E>(query: Result<bool, E>) -> (action: WindowAction)
    ensures
        action == toggled(query),
{
    match query {
        Ok(true) => WindowAction::Hide,
        Ok(false) => WindowAction::Show,
        Err(_) => WindowAction::Show,
    }
}

/// A visible window is asked to hide. A hidden window is asked to show, and
/// so is one that did not say whether it is visible, whatever the failure was.
pub proof fn lemma_toggle_by_visibility<E>(query: Result<bool, E>)
    ensures
        query == Ok::<bool, E>(true) ==> toggled(query) == WindowAction::Hide,
        query == Ok::<bool, E>(false) ==> toggled(query) == WindowAction::Show,
        query is Err ==> toggled(query) == WindowAction::Show,
{
}

/// A press of the shortcut on a window whose visibility is known asks for the
/// opposite of what the window is.
pub proof fn lemma_toggle_flips<E>(visible: bool)
    ensures
        toggled(Ok::<bool, E>(visible)).leaves_visible() == !visible,
{
}

} // verus!
