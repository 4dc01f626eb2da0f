//! The clipboard as the library sees it: a snapshot of what each format held
//! at invocation, and a description of what to write back.

use vstd::prelude::*;

verus! {

/// What one clipboard format held when the snapshot was taken.
pub enum FormatRead {
    /// The clipboard did not offer this format.
    Absent,
    /// The clipboard offered this format but reading it failed;
    /// the payload is the error text of the clipboard API.
    Unreadable(String),
    /// The content that was read.
    Content(String),
}

/// Everything the tool reads from the clipboard in one invocation.
pub struct ClipboardSnapshot {
    /// The HTML format.
    pub html: FormatRead,
    /// The plain-text format.
    pub text: FormatRead,
}

/// What a successful conversion puts back on the clipboard.
pub enum ClipboardWrite {
    /// Replace the clipboard with an HTML rendering and a plain-text fallback.
    HtmlAndText { html: String, text: String },
    /// Replace the clipboard with plain text only.
    TextOnly { text: String },
}

/// A successful conversion: the write-back and the status message to report.
pub struct Outcome {
    pub write: ClipboardWrite,
    pub message: String,
}

} // verus!
