//! JavaScript and its test frameworks.

use crate::language::Language;
use vstd::prelude::*;

pub use jest::Jest;

pub mod jest;

verus! {

/// The JavaScript language.
#[derive(Debug)]
pub struct JavaScript {}

impl Language for JavaScript {
    open spec fn spec_name(&self) -> Seq<char> {
        "java_script"@
    }

    fn name(&self) -> (r: String) {
        String::from_str("java_script")
    }
}

} // verus!
