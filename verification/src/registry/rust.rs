//! Rust and its test frameworks.

use crate::language::Language;
use vstd::prelude::*;

pub use cargotest::Cargotest;

pub mod cargotest;

verus! {

/// The Rust language.
#[derive(Debug)]
pub struct Rust {}

impl Language for Rust {
    open spec fn spec_name(&self) -> Seq<char> {
        "rust"@
    }

    fn name(&self) -> (r: String) {
        String::from_str("rust")
    }
}

} // verus!
