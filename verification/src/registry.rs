//! The closed registry of supported test frameworks, probed in a fixed
//! order.

use crate::context::Context;
use crate::errors::AnytestError;
use crate::named_pattern::regex_matches;
use crate::test_framework::Framework;
use vstd::prelude::*;

pub mod elixir;
pub mod javascript;
pub mod python;
pub mod ruby;
pub mod rust;
pub mod zig;

verus! {

/// Whether the framework at `i` accepts the context's file.
pub open spec fn suitable_at(frameworks: Seq<Framework>, i: int, context: Context) -> bool {
    regex_matches(frameworks[i].pattern_view(), context.rel_path.path@)
}

/// All supported frameworks, in probing order.
pub struct Registry {
    pub frameworks: Vec<Framework>,
}

impl Registry {
    /// The fixed registry.
    pub fn new() -> (r: Self)
        ensures
            r.frameworks@.len() == 7,
            r.frameworks@[0] is ESpec,
            r.frameworks@[1] is ExUnit,
            r.frameworks@[2] is Jest,
            r.frameworks@[3] is Pytest,
            r.frameworks@[4] is RSpec,
            r.frameworks@[5] is Cargotest,
            r.frameworks@[6] is Zigtest,
    {
        let mut registry = Registry { frameworks: Vec::new() };
        registry.add(Framework::ESpec(Default::default()));
        registry.add(Framework::ExUnit(Default::default()));
        registry.add(Framework::Jest(Default::default()));
        registry.add(Framework::Pytest(Default::default()));
        registry.add(Framework::RSpec(Default::default()));
        registry.add(Framework::Cargotest(Default::default()));
        registry.add(Framework::Zigtest(Default::default()));
        registry
    }

    fn add(&mut self, framework: Framework)
        ensures
            final(self).frameworks@ == old(self).frameworks@.push(framework),
    {
        self.frameworks.push(framework);
    }

    /// The first registered framework that accepts the context's file,
    /// or `NoFrameworkFound` when none does.
    pub fn find(&self, context: &Context) -> (r: Result<&Framework, AnytestError>)
        ensures
            r matches Ok(f) ==> exists|i: int|
                0 <= i < self.frameworks@.len() && *f == self.frameworks@[i] && #[trigger]
                suitable_at(self.frameworks@, i, *context) && forall|j: int|
                    0 <= j < i ==> !suitable_at(self.frameworks@, j, *context),
            r is Err ==> r == Err::<&Framework, AnytestError>(AnytestError::NoFrameworkFound)
                && forall|i: int|
                0 <= i < self.frameworks@.len() ==> !suitable_at(self.frameworks@, i, *context),
    {
        let n = self.frameworks.len();
        let mut i: usize = 0;
        while i < n
            invariant
                n == self.frameworks@.len(),
                i <= n,
                forall|j: int| 0 <= j < i ==> !suitable_at(self.frameworks@, j, *context),
            decreases n - i,
        {
            if self.frameworks[i].is_suitable_for(context) {
                proof {
                    assert(suitable_at(self.frameworks@, i as int, *context));
                }
                return Ok(&self.frameworks[i]);
            }
            i += 1;
        }
        Err(AnytestError::NoFrameworkFound)
    }
}

} // verus!
