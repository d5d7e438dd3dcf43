//! The small commands of the window shell.

use vstd::prelude::*;
use vstd::string::StringExecFns;

verus! {

/// The greeting for `name`.
pub open spec fn greeting(name: Seq<char>) -> Seq<char> {
    "Hello, "@ + name + "! You've been greeted from Rust!"@
}

/// Greets `name`.
pub fn greet(name: &str) -> (text: String)
    ensures
        text@ == greeting(name@),
{
    String::from_str("Hello, ").concat(name).concat("! You've been greeted from Rust!")
}

/// What the maximize button asks of the window.
#[derive(Clone, Copy, Debug, PartialEq, Eq)]
pub enum WindowAction {
    /// Enlarge the window to fill the screen.
    Maximize,
    /// Give a maximized window its former size back.
    Unmaximize,
}

/// The maximize button toggles: a window that is maximized is restored, any
/// other is maximized.
pub fn maximize_window(is_maximized: bool) -> (action: WindowAction)
    ensures
        action == (if is_maximized {
            WindowAction::Unmaximize
        } else {
            WindowAction::Maximize
        }),
{
    if is_maximized {
        WindowAction::Unmaximize
    } else {
        WindowAction::Maximize
    }
}

} // verus!
