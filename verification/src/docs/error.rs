//! Errors of the document layer.

use vstd::prelude::*;

verus! {

/// Errors produced by document processing and export.
#[derive(Debug)]
pub enum DocsError {
    UnsupportedFormat(String),
    FileNotFound(String),
    ParseError(String),
    ExportError(String),
    Io(std::io::Error),
}

} // verus!
