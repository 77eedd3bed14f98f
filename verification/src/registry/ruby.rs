//! Ruby and its test frameworks.

use crate::language::Language;
use vstd::prelude::*;

pub use rspec::RSpec;

pub mod rspec;

verus! {

/// The Ruby language.
#[derive(Debug)]
pub struct Ruby {}

impl Language for Ruby {
    open spec fn spec_name(&self) -> Seq<char> {
        "ruby"@
    }

    fn name(&self) -> (r: String) {
        String::from_str("ruby")
    }
}

} // verus!
