//! Core logic of a one-shot clipboard converter between Markdown and HTML.
//!
//! The library models the clipboard as a snapshot of what each format held,
//! decides which conversion a command performs, and states exactly which
//! write-back and status message every snapshot leads to. Reading the OS
//! clipboard, writing it back and delivering notifications are left to the
//! binary around the library.

pub mod content;
pub mod converters;
pub mod dispatch;
pub mod errors;
