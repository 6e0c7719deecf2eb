//! The error taxonomy: flat, and terminal for the operation that raised an
//! error — the library performs no retries and no silent recovery.

use vstd::prelude::*;
use crate::keyboard::KeySC;
use crate::window::WindowHandle;

verus! {

/// Everything that can go wrong while pressing keys against a target window.
#[derive(Debug, PartialEq, Eq)]
pub enum AwnError {
    /// Focus verification failed: the named handle was not the foreground
    /// window, either before an injection or during an explicit foreground
    /// request.
    WindowNotForeground { hwnd: WindowHandle },
    /// The OS accepted fewer key-down events than expected; `key` is the
    /// first key whose expected count was not met.
    KeyDownSendFailed { key: KeySC },
    /// The OS accepted fewer key-up events than expected; `key` is the first
    /// key whose expected count was not met.
    KeyUpSendFailed { key: KeySC },
    /// Window lookup found no window with this title.
    ApplicationNotFound { title: String },
    /// Any other OS call failure, with the failing call's name and the
    /// underlying cause for diagnostics.
    OSApiError { name: String, cause: String },
}

} // verus!
