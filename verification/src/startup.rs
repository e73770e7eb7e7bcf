//! Startup checks: the target window must be open and must have the size
//! that the monitored points were measured for.

use vstd::prelude::*;
use crate::focus::{is_target_app, TARGET_APP};

verus! {

/// Width that the target window must have.
pub const WINDOW_WIDTH: u32 = 1440;

/// Height that the target window must have.
pub const WINDOW_HEIGHT: u32 = 875;

/// What startup needs to know of one visible window.
#[derive(Debug)]
pub struct WindowInfo {
    pub app_name: String,
    pub width: u32,
    pub height: u32,
}

/// Why startup cannot go on.
#[derive(Clone, Copy, Debug, PartialEq, Eq, Structural)]
pub enum StartupError {
    /// No window belongs to the target application.
    NotOpened,
    /// The target window does not have the expected size.
    SizeMismatch,
}

impl StartupError {
    /// The text of the diagnostic for this error.
    pub open spec fn spec_message(self) -> Seq<char> {
        match self {
            StartupError::NotOpened => "tibia not opened"@,
            StartupError::SizeMismatch => "mismatch in window size"@,
        }
    }

    /// A diagnostic that names the failed precondition.
    pub fn message(&self) -> (text: &'static str)
        ensures
            text@ == self.spec_message(),
    {
        match self {
            StartupError::NotOpened => "tibia not opened",
            StartupError::SizeMismatch => "mismatch in window size",
        }
    }
}

impl WindowInfo {
    /// Whether this window belongs to the target application.
    pub open spec fn is_target(self) -> bool {
        self.app_name@ == TARGET_APP@
    }

    /// Whether this window has the expected size.
    pub open spec fn has_expected_size(self) -> bool {
        self.width == WINDOW_WIDTH && self.height == WINDOW_HEIGHT
    }
}

/// Whether the window at index `i` is the first window of the target
/// application.
pub open spec fn is_first_target(windows: Seq<WindowInfo>, i: int) -> bool {
    &&& 0 <= i < windows.len()
    &&& windows[i].is_target()
    &&& forall|j: int| 0 <= j < i ==> !(#[trigger] windows[j]).is_target()
}

/// Finds the window to watch: the first window of the target application,
/// which must have the expected size.
///
/// Fails with `NotOpened` exactly when no window belongs to the target
/// application, and with `SizeMismatch` exactly when the first that does has
/// another size.
pub fn find_target_window(windows: &Vec<WindowInfo>) -> (r: Result<usize, StartupError>)
    ensures
        match r {
            Ok(i) => is_first_target(windows@, i as int) && windows@[i as int].has_expected_size(),
            Err(StartupError::NotOpened) => forall|j: int|
                0 <= j < windows@.len() ==> !(#[trigger] windows@[j]).is_target(),
            Err(StartupError::SizeMismatch) => exists|i: int|
                #[trigger] is_first_target(windows@, i) && !windows@[i].has_expected_size(),
        },
{
    let mut i: usize = 0;
    while i < windows.len()
        invariant
            i <= windows@.len(),
            forall|j: int| 0 <= j < i ==> !(#[trigger] windows@[j]).is_target(),
        decreases windows@.len() - i,
    {
        let window = &windows[i];
        if is_target_app(&window.app_name) {
            assert(is_first_target(windows@, i as int));
            if window.width == WINDOW_WIDTH && window.height == WINDOW_HEIGHT {
                return Ok(i);
            } else {
                return Err(StartupError::SizeMismatch);
            }
        }
        i += 1;
    }
    Err(StartupError::NotOpened)
}

} // verus!
