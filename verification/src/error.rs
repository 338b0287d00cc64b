//! The failures that the overlay operations report.

use vstd::prelude::*;
use vstd::string::*;

verus! {

/// Why an overlay operation did not succeed. Every failure is recoverable:
/// the caller gets one of these and the state stays well defined.
#[derive(Clone, Debug, PartialEq, Eq)]
pub enum OverlayError {
    /// No helper executable exists at any of the candidate locations.
    HelperNotFound,
    /// An update was requested while no helper is held.
    HelperNotRunning,
    /// The outline helper does not exist for this platform.
    OutlineUnsupported,
    /// The primary display is unknown, so no window can be placed.
    NoDisplay,
    /// The operating system refused an operation; the text is its report.
    Os(String),
}

impl OverlayError {
    /// The text shown to the user for this failure.
    pub open spec fn message_text(&self) -> Seq<char> {
        match self {
            OverlayError::HelperNotFound => "Не найден OutlineHelper. Соберите через: bash skygen-ui/src-tauri/macos/build_outline_helper.sh или задайте OUTLINE_HELPER_PATH"@,
            OverlayError::HelperNotRunning => "OutlineHelper не запущен"@,
            OverlayError::OutlineUnsupported => "Outline доступен только на macOS"@,
            OverlayError::NoDisplay => "Не удалось получить информацию о мониторе"@,
            OverlayError::Os(report) => report@,
        }
    }

    /// Renders the failure as the single descriptive string that callers
    /// pass on.
    pub fn message(&self) -> (text: String)
        ensures
            text@ == self.message_text(),
    {
        match self {
            OverlayError::HelperNotFound => String::from_str(
                "Не найден OutlineHelper. Соберите через: bash skygen-ui/src-tauri/macos/build_outline_helper.sh или задайте OUTLINE_HELPER_PATH",
            ),
            OverlayError::HelperNotRunning => String::from_str("OutlineHelper не запущен"),
            OverlayError::OutlineUnsupported => String::from_str("Outline доступен только на macOS"),
            OverlayError::NoDisplay => String::from_str("Не удалось получить информацию о мониторе"),
            OverlayError::Os(report) => report.clone(),
        }
    }
}

/// Takes over the operating system's answer to an operation, such as
/// spawning the helper or writing to its pipe: what succeeded is passed on,
/// and a failure becomes an `OverlayError` that carries the system's report.
pub fn os_outcome<T>(outcome: Result<T, String>) -> (taken: Result<T, OverlayError>)
    ensures
        (match outcome {
            Ok(value) => taken == Ok::<T, OverlayError>(value),
            Err(report) => taken == Err::<T, OverlayError>(OverlayError::Os(report)),
        }),
{
    match outcome {
        Ok(value) => Ok(value),
        Err(report) => Err(OverlayError::Os(report)),
    }
}

} // verus!
