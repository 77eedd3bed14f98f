//! Python and its test frameworks.

use crate::language::Language;
use vstd::prelude::*;

pub use pytest::Pytest;

pub mod pytest;

verus! {

/// The Python language.
#[derive(Debug)]
pub struct Python {}

impl Language for Python {
    open spec fn spec_name(&self) -> Seq<char> {
        "python"@
    }

    fn name(&self) -> (r: String) {
        String::from_str("python")
    }
}

} // verus!
