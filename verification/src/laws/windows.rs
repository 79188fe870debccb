//! Laws of the window.

use vstd::prelude::*;

use crate::window;
use crate::window::WindowEvent;

verus! {

/// An operation is cancelled when its window is to be closed, and when it is gone, and for nothing
/// else that happens to the window.
pub proof fn an_operation_ends_with_its_window(event: WindowEvent, cancels: bool)
    requires
        call_ensures(window::cancels_active_operation, (event,), cancels),
    ensures
        event is CloseRequested ==> cancels,
        event is Destroyed ==> cancels,
        event is Other ==> !cancels,
{
}

} // verus!
