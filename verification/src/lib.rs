//! Maps a source-file location (path, optional line, optional scope) to the
//! command line of the test framework able to run exactly that test, that
//! file's tests, or the whole suite.
//!
//! The core is made of a path resolver, a direction-aware 1-based line range,
//! a line selector over a file's lines, and a heuristic nearest-test locator
//! that works from indentation and declaration order alone.

pub mod context;
pub mod errors;
pub mod language;
pub mod line_range;
pub mod line_select;
pub mod locator;
pub mod named_pattern;
pub mod registry;
pub mod rel_path;
pub mod strutil;
pub mod test_framework;
pub mod utils;

pub use context::Context;
pub use context::Nearest;
pub use context::Scope;
pub use errors::AnytestError;
pub use line_range::LRange;
pub use line_range::LineBound;
pub use named_pattern::NamedPattern;
pub use registry::Registry;
pub use rel_path::RelPath;
pub use test_framework::Framework;

use vstd::prelude::*;

verus! {

/// A 1-based line number.
pub type LineNr = usize;

/// An ordered list of command-line arguments.
pub type ArgsList = Vec<String>;

} // verus!
