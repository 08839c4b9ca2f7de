//! The ways in which a replacement fails.

use vstd::prelude::*;
use vstd::string::StringExecFns;

verus! {

/// Why a replacement did not take place. Each failure belongs to the one
/// replacement in which it arose; none of them ends the process.
#[derive(Clone, Copy, Debug, PartialEq, Eq, Structural)]
pub enum ReplacementError {
    /// Nothing was captured, so there is nothing to replace. The user has to
    /// select again.
    NoSelectionInfo,
    /// No open window has a title that matches the remembered one.
    WindowNotFound,
    /// The window was found and has gone since.
    InvalidWindowHandle,
    /// The new text could not be put on the clipboard.
    ClipboardError,
    /// The system refused to bring the window to the front.
    ActivationRequestFailed,
    /// The window did not come to the front in time.
    ActivationTimeout,
    /// There is no way to replace text on this platform.
    PlatformUnsupported,
}

impl ReplacementError {
    /// The failure in words. `window_id` is the title that was looked for.
    pub open spec fn description(self, window_id: Seq<char>) -> Seq<char> {
        match self {
            ReplacementError::NoSelectionInfo => "No selection info available"@,
            ReplacementError::WindowNotFound => "Window not found: "@ + window_id,
            ReplacementError::InvalidWindowHandle => "Window is no longer valid"@,
            ReplacementError::ClipboardError => "Failed to set clipboard"@,
            ReplacementError::ActivationRequestFailed => "Could not activate window"@,
            ReplacementError::ActivationTimeout => "Window activation timeout"@,
            ReplacementError::PlatformUnsupported => "Platform not supported"@,
        }
    }

    /// The failure in words, for the caller and the log. `window_id` is the
    /// title that was looked for; it is named when no window matched it.
    pub fn describe(self, window_id: &str) -> (message: String)
        ensures
            message@ == self.description(window_id@),
    {
        match self {
            ReplacementError::NoSelectionInfo => String::from_str("No selection info available"),
            ReplacementError::WindowNotFound => {
                let mut message = String::from_str("Window not found: ");
                message.append(window_id);
                message
            },
            ReplacementError::InvalidWindowHandle => String::from_str("Window is no longer valid"),
            ReplacementError::ClipboardError => String::from_str("Failed to set clipboard"),
            ReplacementError::ActivationRequestFailed => String::from_str(
                "Could not activate window",
            ),
            ReplacementError::ActivationTimeout => String::from_str("Window activation timeout"),
            ReplacementError::PlatformUnsupported => String::from_str("Platform not supported"),
        }
    }
}

} // verus!
