//! The typed failures of the library.

use vstd::prelude::*;

verus! {

/// Everything that can go wrong while resolving a path, building a line
/// range, selecting lines or locating the nearest test.
#[derive(Clone, Copy, Debug, PartialEq, Eq, Structural)]
pub enum AnytestError {
    /// The root is not an existing directory.
    InvalidRoot,
    /// The resolved path does not exist.
    PathNotFound,
    /// The resolved path is not nested strictly under the root.
    PathEscapesRoot,
    /// A range start below 1 was requested.
    InvalidLowerBound,
    /// A range end below 1 was requested.
    InvalidUpperBound,
    /// The requested seek target lies past the end of the file; carries the
    /// 1-based line number that was asked for.
    LineNotFound(usize),
    /// The locator was handed an empty list of test patterns.
    EmptyPatternSet,
    /// A line-scoped request came without a line number.
    MissingLineNumber,
    /// No registered test framework accepts the file.
    NoFrameworkFound,
}

} // verus!
