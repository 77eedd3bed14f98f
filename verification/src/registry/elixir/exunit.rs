//! The ExUnit test framework.

use super::Elixir;
use crate::context::Context;
use crate::ArgsList;
use vstd::prelude::*;

verus! {

/// ExUnit: test files end in `_test.exs`; inside a Mix project they run
/// through `mix test`, elsewhere through plain `elixir`.
#[derive(Debug)]
pub struct ExUnit {
    pub language: Elixir,
    /// The file pattern a suitable path must match.
    pub pattern: String,
    /// Empty: the executable is built per project.
    pub executable: Vec<String>,
    pub test_pattern: String,
    pub namespace_pattern: String,
}

impl Default for ExUnit {
    fn default() -> (r: Self)
        ensures
            r.pattern@ == r"_test\.exs$"@,
            r.executable@.len() == 0,
            r.test_pattern@ == Seq::<char>::empty(),
            r.namespace_pattern@ == Seq::<char>::empty(),
    {
        ExUnit {
            language: Elixir {  },
            pattern: String::from_str(r"_test\.exs$"),
            executable: Vec::new(),
            test_pattern: String::new(),
            namespace_pattern: String::new(),
        }
    }
}

/// Whether the context's root holds a Mix project: a `mix.exs` file
/// exists under it.  The answer depends on the filesystem.
pub fn is_mix(context: &Context) -> bool
    requires
        context.rel_path.wf(),
{
    context.find_file("mix.exs").is_some()
}

impl ExUnit {
    /// `mix test` inside a Mix project, plain `elixir` outside one.
    pub fn build_executable(&self, context: &Context) -> (r: ArgsList)
        requires
            context.rel_path.wf(),
        ensures
            (r.deep_view() == seq!["mix"@, "test"@]) || (r.deep_view() == seq!["elixir"@]),
    {
        let mut args: Vec<String> = Vec::new();
        if is_mix(context) {
            args.push(String::from_str("mix"));
            args.push(String::from_str("test"));
            proof {
                assert(args.deep_view() =~= seq!["mix"@, "test"@]);
            }
        } else {
            args.push(String::from_str("elixir"));
            proof {
                assert(args.deep_view() =~= seq!["elixir"@]);
            }
        }
        args
    }

    /// Nothing inside a Mix project (the whole suite is the default);
    /// every spec file outside one.
    pub fn build_suite_position_args(&self, context: &Context) -> (r: ArgsList)
        requires
            context.rel_path.wf(),
        ensures
            (r.deep_view() == Seq::<Seq<char>>::empty()) || (r.deep_view() == seq!["*.exs"@]),
    {
        let mut args: Vec<String> = Vec::new();
        if !is_mix(context) {
            args.push(String::from_str("*.exs"));
            proof {
                assert(args.deep_view() =~= seq!["*.exs"@]);
            }
        } else {
            proof {
                assert(args.deep_view() =~= Seq::<Seq<char>>::empty());
            }
        }
        args
    }

    /// The `relative:line` form inside a Mix project when a line past 1
    /// is requested; the bare file otherwise.
    pub fn build_line_position_args(&self, context: &Context) -> (r: ArgsList)
        requires
            context.rel_path.wf(),
        ensures
            (r.deep_view() == seq![context.rel_path.rel@]) || (r.deep_view() == seq![
                context.rel_full_view(),
            ]),
    {
        let mut file_args: Vec<String> = Vec::new();
        file_args.push(String::from_str(context.rel_str()));
        proof {
            assert(file_args.deep_view() =~= seq![context.rel_path.rel@]);
        }

        if !is_mix(context) || context.line_nr_or_default() < 2 {
            return file_args;
        }

        let mut args: Vec<String> = Vec::new();
        args.push(context.rel_full());
        proof {
            assert(args.deep_view() =~= seq![context.rel_full_view()]);
        }
        args
    }
}

} // verus!
