//! What can go wrong while searching.

use vstd::prelude::*;

verus! {

/// A file that is not valid source text, with the parser's own diagnostic.
#[derive(Clone, Debug, PartialEq, Eq)]
pub struct ParseError {
    /// What the parser says is wrong.
    pub message: String,
    /// The line the parser points at, counted from 1.
    pub line: usize,
    /// The column the parser points at, counted from 0.
    pub column: usize,
}

/// Why a search produced no targets.
#[derive(Clone, Debug, PartialEq, Eq)]
pub enum SearchError {
    /// The file could not be read; the text says why.
    Io(String),
    /// The file is not valid source text.
    Parse(ParseError),
    /// The path to search is neither a file nor a directory.
    InvalidPath,
}

} // verus!
