//! The language a test framework belongs to.

use vstd::prelude::*;

verus! {

/// A programming language with test frameworks in the registry.
pub trait Language {
    /// The language's name, as a specification value.
    spec fn spec_name(&self) -> Seq<char>;

    /// The language's lower-case name.
    fn name(&self) -> (r: String)
        ensures
            r@ == self.spec_name(),
    ;
}

} // verus!
