//! The error cases of an invocation, the exit code each one maps to, and the
//! message reported for it.

use vstd::prelude::*;

verus! {

/// The ways an invocation can fail.
pub enum AppError {
    /// The clipboard does not hold the format the command needs.
    MissingClipboard,
    /// The HTML-to-Markdown converter rejected its input.
    ConversionFailed,
    /// A clipboard operation failed; the payload is the underlying error text.
    Clipboard(String),
    /// A notification could not be delivered; the payload is the underlying error text.
    Notification(String),
}

/// Exit code of a successful invocation.
pub const EXIT_SUCCESS: i32 = 0;

/// Exit code when the required clipboard format is missing.
pub const EXIT_MISSING_CONTENT: i32 = 1;

/// Exit code when a conversion fails.
pub const EXIT_CONVERSION_FAILED: i32 = 2;

/// Exit code when the clipboard or the notification service fails.
pub const EXIT_ENVIRONMENT: i32 = 255;

/// The message reported when the required clipboard format is missing.
pub open spec fn missing_content_message() -> Seq<char> {
    "Required clipboard format is missing."@
}

/// The message reported when a conversion fails.
pub open spec fn conversion_failed_message() -> Seq<char> {
    "Conversion failed."@
}

/// The exit code and the message that an error is reported with.
pub fn error_report(err: &AppError) -> (r: (i32, String))
    ensures
        match *err {
            AppError::MissingClipboard => r.0 == EXIT_MISSING_CONTENT && r.1@
                == missing_content_message(),
            AppError::ConversionFailed => r.0 == EXIT_CONVERSION_FAILED && r.1@
                == conversion_failed_message(),
            AppError::Clipboard(m) => r.0 == EXIT_ENVIRONMENT && r.1@ == m@,
            AppError::Notification(m) => r.0 == EXIT_ENVIRONMENT && r.1@ == m@,
        },
{
    match err {
        AppError::MissingClipboard => (
            EXIT_MISSING_CONTENT,
            String::from_str("Required clipboard format is missing."),
        ),
        AppError::ConversionFailed => (EXIT_CONVERSION_FAILED, String::from_str("Conversion failed.")),
        AppError::Clipboard(m) => (EXIT_ENVIRONMENT, String::from_str(m.as_str())),
        AppError::Notification(m) => (EXIT_ENVIRONMENT, String::from_str(m.as_str())),
    }
}

} // verus!
