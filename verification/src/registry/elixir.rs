//! Elixir and its test frameworks.

use crate::language::Language;
use vstd::prelude::*;

pub use espec::ESpec;
pub use exunit::ExUnit;

pub mod espec;
pub mod exunit;

verus! {

/// The Elixir language.
#[derive(Debug)]
pub struct Elixir {}

impl Language for Elixir {
    open spec fn spec_name(&self) -> Seq<char> {
        "elixir"@
    }

    fn name(&self) -> (r: String) {
        String::from_str("elixir")
    }
}

} // verus!
