//! The built-in Zig test runner.

use super::Zig;
use crate::context::nearest_spec;
use crate::context::Context;
use crate::line_select::seek_target;
use crate::line_select::sel_ok;
use crate::line_select::sel_seq;
use crate::strutil::join_sep;
use crate::strutil::join_with;
use crate::test_framework::find_nearest_for;
use crate::test_framework::line_back_range;
use crate::test_framework::np_view;
use crate::test_framework::tp_view;
use crate::utils;
use crate::utils::quote;
use crate::ArgsList;
use crate::errors::AnytestError;
use vstd::prelude::*;

verus! {

/// `zig test`: test blocks are declared as `test "name"`; one test is
/// picked with `--test-filter` and the quoted block name.
#[derive(Debug)]
pub struct Zigtest {
    pub language: Zig,
    /// The file pattern a suitable path must match.
    pub pattern: String,
    /// The fixed executable.
    pub executable: Vec<String>,
    /// Extra arguments the runner always takes.
    pub args: Vec<String>,
    pub test_pattern: String,
    pub namespace_pattern: String,
}

impl Default for Zigtest {
    fn default() -> (r: Self)
        ensures
            r.pattern@ == r".zig$"@,
            r.executable@.len() == 1 && r.executable@[0]@ == "zig"@,
            r.args@.len() == 0,
            r.test_pattern@ == r#"^\s*test\s+"(.+)""#@,
            r.namespace_pattern@ == Seq::<char>::empty(),
    {
        let mut executable: Vec<String> = Vec::new();
        executable.push(String::from_str("zig"));
        Zigtest {
            language: Zig {  },
            pattern: String::from_str(r".zig$"),
            executable,
            args: Vec::new(),
            test_pattern: String::from_str(r#"^\s*test\s+"(.+)""#),
            namespace_pattern: String::new(),
        }
    }
}

impl Zigtest {
    /// The whole suite goes through `zig build test`.
    pub fn build_suite_position_args(&self, _context: &Context) -> (r: ArgsList)
        ensures
            r.deep_view() == seq!["build"@, "test"@],
    {
        let mut args: Vec<String> = Vec::new();
        args.push(String::from_str("build"));
        args.push(String::from_str("test"));
        proof {
            assert(args.deep_view() =~= seq!["build"@, "test"@]);
        }
        args
    }

    /// One file goes through `zig test <file>`.
    pub fn build_file_position_args(&self, context: &Context) -> (r: ArgsList)
        ensures
            r.deep_view() == seq!["test"@, context.rel_path.rel@],
    {
        let mut args: Vec<String> = Vec::new();
        args.push(String::from_str("test"));
        args.push(String::from_str(context.rel_str()));
        proof {
            assert(args.deep_view() =~= seq!["test"@, context.rel_path.rel@]);
        }
        args
    }

    /// The file arguments, followed by a quoted `--test-filter` when the
    /// backward scan found a test block.
    pub fn build_line_position_args(&self, context: &Context, file_lines: &Vec<String>) -> (r:
        Result<ArgsList, AnytestError>)
        requires
            context.rel_path.wf(),
            context.line_nr matches Some(n) ==> n < usize::MAX,
        ensures
            context.line_nr is None ==> r == Err::<ArgsList, AnytestError>(
                AnytestError::MissingLineNumber,
            ),
            context.line_nr matches Some(line) ==> (line == 0 ==> r == Err::<
                ArgsList,
                AnytestError,
            >(AnytestError::InvalidLowerBound)),
            context.line_nr matches Some(line) ==> (line >= 1 && sel_ok(
                file_lines@.len() as int,
                line_back_range(line as int),
            ) ==> r is Ok),
            context.line_nr matches Some(line) ==> (line >= 1 && !sel_ok(
                file_lines@.len() as int,
                line_back_range(line as int),
            ) ==> r == Err::<ArgsList, AnytestError>(AnytestError::LineNotFound(seek_target(
                line_back_range(line as int),
            ) as usize))),
            r matches Ok(a) ==> context.line_nr matches Some(line) && ({
                let near = nearest_spec(
                    tp_view(self.test_pattern@),
                    np_view(self.namespace_pattern@),
                    sel_seq(file_lines.deep_view(), line_back_range(line as int)),
                );
                if near.0.len() == 0 {
                    a.deep_view() == seq!["test"@, context.rel_path.rel@]
                } else {
                    a.deep_view() == seq!["test"@, context.rel_path.rel@, "--test-filter"@, seq![
                        '\'',
                    ] + join_sep(near.0, Seq::<char>::empty()) + seq!['\'']]
                }
            }),
    {
        let args = self.build_file_position_args(context);
        let nearest = match find_nearest_for(
            self.test_pattern.as_str(),
            self.namespace_pattern.as_str(),
            context,
            file_lines,
        ) {
            Ok(n) => n,
            Err(e) => {
                return Err(e);
            },
        };

        if !nearest.has_tests() {
            return Ok(args);
        }

        let filter = join_with(&nearest.tests, "");
        let quoted = quote(filter.as_str());
        let mut line_args: Vec<String> = Vec::new();
        line_args.push(String::from_str("--test-filter"));
        line_args.push(quoted);
        let out = utils::concat(args, line_args);
        proof {
            reveal_strlit("");
            assert(""@ =~= Seq::<char>::empty());
            assert(out.deep_view() =~= seq!["test"@, context.rel_path.rel@, "--test-filter"@, seq![
                '\'',
            ] + join_sep(nearest.tests.deep_view(), Seq::<char>::empty()) + seq!['\'']]);
        }
        Ok(out)
    }
}

} // verus!
