//! The command dispatcher: which conversion each command performs on a given
//! clipboard snapshot, which write-back and message a success carries, and
//! where a status message goes.

use vstd::prelude::*;

use crate::content::ClipboardSnapshot;
use crate::content::ClipboardWrite;
use crate::content::FormatRead;
use crate::content::Outcome;
use crate::converters::html_of_markdown;
use crate::converters::html_to_markdown;
use crate::converters::markdown_of_html;
use crate::converters::markdown_to_html;
use crate::converters::markdown_to_plain;
use crate::converters::plain_of_markdown;
use crate::errors::AppError;

verus! {

/// The command the tool was invoked with.
pub enum Mode {
    /// Convert clipboard Markdown text to HTML; write back HTML and plain text.
    ToHtml,
    /// Convert clipboard HTML to Markdown; write back plain text only.
    ToMd,
    /// HTML present: convert it to Markdown; else non-empty text: convert it
    /// to HTML; else fail.
    Auto,
}

/// The message reported after converting Markdown to HTML.
pub open spec fn to_html_message() -> Seq<char> {
    "Converted Markdown to HTML and copied to clipboard."@
}

/// The message reported after converting HTML to Markdown.
pub open spec fn to_md_message() -> Seq<char> {
    "Converted HTML to Markdown and copied to clipboard."@
}

/// What converting the snapshot's text from Markdown to HTML returns: an
/// error if the text format is absent or unreadable, else the compiled HTML
/// with its plain-text fallback and the success message.
pub open spec fn to_html_result(snap: ClipboardSnapshot, r: Result<Outcome, AppError>) -> bool {
    match snap.text {
        FormatRead::Absent => r == Err::<Outcome, AppError>(AppError::MissingClipboard),
        FormatRead::Unreadable(e) => r matches Err(AppError::Clipboard(m)) && m@ == e@,
        FormatRead::Content(t) => r matches Ok(out) && out.write matches ClipboardWrite::HtmlAndText {
            html,
            text,
        } && html@ == html_of_markdown(t@) && text@ == plain_of_markdown(t@) && out.message@
            == to_html_message(),
    }
}

/// What converting the snapshot's HTML to Markdown returns: an error if the
/// HTML format is absent, unreadable or rejected by the converter, else the
/// Markdown and the success message.
pub open spec fn to_md_result(snap: ClipboardSnapshot, r: Result<Outcome, AppError>) -> bool {
    match snap.html {
        FormatRead::Absent => r == Err::<Outcome, AppError>(AppError::MissingClipboard),
        FormatRead::Unreadable(e) => r matches Err(AppError::Clipboard(m)) && m@ == e@,
        FormatRead::Content(h) => match markdown_of_html(h@) {
            Some(md) => r matches Ok(out) && out.write matches ClipboardWrite::TextOnly { text }
                && text@ == md && out.message@ == to_md_message(),
            None => r == Err::<Outcome, AppError>(AppError::ConversionFailed),
        },
    }
}

/// What auto-detection returns: with HTML offered, the HTML-to-Markdown
/// result; else with readable non-empty text, the Markdown-to-HTML result;
/// else the missing-content error (or the text format's read error).
pub open spec fn auto_result(snap: ClipboardSnapshot, r: Result<Outcome, AppError>) -> bool {
    if !(snap.html matches FormatRead::Absent) {
        to_md_result(snap, r)
    } else {
        match snap.text {
            FormatRead::Absent => r == Err::<Outcome, AppError>(AppError::MissingClipboard),
            FormatRead::Unreadable(e) => r matches Err(AppError::Clipboard(m)) && m@ == e@,
            FormatRead::Content(t) => if t@.len() == 0 {
                r == Err::<Outcome, AppError>(AppError::MissingClipboard)
            } else {
                to_html_result(snap, r)
            },
        }
    }
}

/// Convert the snapshot's Markdown text to HTML.
pub fn convert_to_html(snap: &ClipboardSnapshot) -> (r: Result<Outcome, AppError>)
    ensures
        to_html_result(*snap, r),
{
    match &snap.text {
        FormatRead::Absent => Err(AppError::MissingClipboard),
        FormatRead::Unreadable(e) => Err(AppError::Clipboard(String::from_str(e.as_str()))),
        FormatRead::Content(t) => {
            let html = markdown_to_html(t.as_str());
            let text = markdown_to_plain(t.as_str());
            Ok(
                Outcome {
                    write: ClipboardWrite::HtmlAndText { html, text },
                    message: String::from_str("Converted Markdown to HTML and copied to clipboard."),
                },
            )
        },
    }
}

/// Convert the snapshot's HTML to Markdown.
pub fn convert_to_md(snap: &ClipboardSnapshot) -> (r: Result<Outcome, AppError>)
    ensures
        to_md_result(*snap, r),
{
    match &snap.html {
        FormatRead::Absent => Err(AppError::MissingClipboard),
        FormatRead::Unreadable(e) => Err(AppError::Clipboard(String::from_str(e.as_str()))),
        FormatRead::Content(h) => match html_to_markdown(h.as_str()) {
            Ok(md) => Ok(
                Outcome {
                    write: ClipboardWrite::TextOnly { text: md },
                    message: String::from_str("Converted HTML to Markdown and copied to clipboard."),
                },
            ),
            Err(_) => Err(AppError::ConversionFailed),
        },
    }
}

/// Auto-detect what the snapshot holds and convert it.
pub fn convert_auto(snap: &ClipboardSnapshot) -> (r: Result<Outcome, AppError>)
    ensures
        auto_result(*snap, r),
{
    match &snap.html {
        FormatRead::Absent => {},
        _ => {
            return convert_to_md(snap);
        },
    }
    match &snap.text {
        FormatRead::Absent => Err(AppError::MissingClipboard),
        FormatRead::Unreadable(e) => Err(AppError::Clipboard(String::from_str(e.as_str()))),
        FormatRead::Content(t) => {
            if t.as_str().is_empty() {
                Err(AppError::MissingClipboard)
            } else {
                convert_to_html(snap)
            }
        },
    }
}

/// Run the conversion that the command asks for on the snapshot.
pub fn run_conversion(mode: &Mode, snap: &ClipboardSnapshot) -> (r: Result<Outcome, AppError>)
    ensures
        *mode matches Mode::ToHtml ==> to_html_result(*snap, r),
        *mode matches Mode::ToMd ==> to_md_result(*snap, r),
        *mode matches Mode::Auto ==> auto_result(*snap, r),
{
    match mode {
        Mode::ToHtml => convert_to_html(snap),
        Mode::ToMd => convert_to_md(snap),
        Mode::Auto => convert_auto(snap),
    }
}

/// Law: when the clipboard offers no plain text, converting to HTML fails
/// with the missing-content error, which `error_report` maps to
/// `EXIT_MISSING_CONTENT`.
pub proof fn lemma_to_html_missing_format(snap: ClipboardSnapshot, r: Result<Outcome, AppError>)
    requires
        snap.text matches FormatRead::Absent,
        to_html_result(snap, r),
    ensures
        r == Err::<Outcome, AppError>(AppError::MissingClipboard),
{
}

/// Law: when the clipboard offers no HTML, converting to Markdown fails
/// with the missing-content error, which `error_report` maps to
/// `EXIT_MISSING_CONTENT`.
pub proof fn lemma_to_md_missing_format(snap: ClipboardSnapshot, r: Result<Outcome, AppError>)
    requires
        snap.html matches FormatRead::Absent,
        to_md_result(snap, r),
    ensures
        r == Err::<Outcome, AppError>(AppError::MissingClipboard),
{
}

/// Law: when the clipboard offers no HTML and its text is absent or empty,
/// auto-detection fails with the missing-content error, which `error_report`
/// maps to `EXIT_MISSING_CONTENT`.
pub proof fn lemma_auto_missing_format(snap: ClipboardSnapshot, r: Result<Outcome, AppError>)
    requires
        snap.html matches FormatRead::Absent,
        (snap.text matches FormatRead::Absent) || (snap.text matches FormatRead::Content(t)
            && t@.len() == 0),
        auto_result(snap, r),
    ensures
        r == Err::<Outcome, AppError>(AppError::MissingClipboard),
{
}

/// Where a status message goes.
pub enum MessageRoute {
    /// Deliver it as a desktop notification.
    Notify,
    /// Print it to stderr.
    Stderr,
    /// Report nothing.
    Silent,
}

/// Where a status message goes: notifications win over stderr, and the quiet
/// flag silences stderr.
pub fn message_route(quiet: bool, notify: bool) -> (r: MessageRoute)
    ensures
        notify ==> r matches MessageRoute::Notify,
        !notify && !quiet ==> r matches MessageRoute::Stderr,
        !notify && quiet ==> r matches MessageRoute::Silent,
{
    if notify {
        MessageRoute::Notify
    } else if !quiet {
        MessageRoute::Stderr
    } else {
        MessageRoute::Silent
    }
}

} // verus!
