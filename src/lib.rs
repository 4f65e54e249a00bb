//! Building and rendering manual pages in the **mdoc** markup language.
//!
//! A document is an ordered sequence of lines: control lines (a request or
//! macro name and its arguments) and text lines (a sequence of inline
//! fragments). Rendering escapes text so that it can never be mistaken for a
//! control line by the formatter.

pub mod escape;
pub mod line;
pub mod document;
pub mod command;

pub use escape::{escape_hyphens, escape_leading_cc, starts_with_period};
pub use line::{bold, italic, line_break, roman, Inline, Line};
pub use document::{
    Arch, Day, Description, DocumentDate, DocumentTitle, Mdoc, Month, Name, OperatingSystem,
    Section, System, Title, Version, Year,
};
pub use command::{CommandOption, CommandSummary};
