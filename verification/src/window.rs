//! What the launcher does when something happens to its window.

use vstd::prelude::*;

verus! {

/// Something that happened to the launcher's window.
#[derive(Clone, Copy, Debug, PartialEq, Eq, Structural)]
pub enum WindowEvent {
    /// The user wants the window closed.
    CloseRequested,
    /// The window is gone.
    Destroyed,
    /// Anything else, such as a new size or place.
    Other,
}

/// Tells whether the operation that is running, if any, is cancelled because of `event`: an
/// operation does not outlive the window that shows it.
pub fn cancels_active_operation(event: WindowEvent) -> (cancels: bool)
    ensures
        cancels == (event == WindowEvent::CloseRequested || event == WindowEvent::Destroyed),
{
    matches!(event, WindowEvent::CloseRequested | WindowEvent::Destroyed)
}

} // verus!
