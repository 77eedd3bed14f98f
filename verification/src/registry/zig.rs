//! Zig and its test frameworks.

use crate::language::Language;
use vstd::prelude::*;

pub use zigtest::Zigtest;

pub mod zigtest;

verus! {

/// The Zig language.
#[derive(Debug)]
pub struct Zig {}

impl Language for Zig {
    open spec fn spec_name(&self) -> Seq<char> {
        "zig"@
    }

    fn name(&self) -> (r: String) {
        String::from_str("zig")
    }
}

} // verus!
