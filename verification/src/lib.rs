//! Extraction of Python code from fenced blocks in Markdown documents, and
//! the line-level logic for re-formatting such blocks.

pub mod unicode;
pub mod text;
pub mod lines;
pub mod fence;
pub mod extract;
pub mod blocks;

pub use extract::extract_python;
pub use fence::is_closing_code_fence;

use vstd::prelude::*;

verus! {

/// The outcome of formatting the code blocks of a document.
#[derive(Debug, PartialEq, Eq)]
pub enum MarkdownResult {
    /// Some block changed; this is the whole new document.
    Formatted(String),
    /// No block changed.
    Unchanged,
}

} // verus!
pub mod pycon;
