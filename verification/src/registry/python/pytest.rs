//! The pytest test framework.

use super::Python;
use crate::context::nearest_spec;
use crate::context::Context;
use crate::line_select::seek_target;
use crate::line_select::sel_ok;
use crate::line_select::sel_seq;
use crate::strutil::join_sep;
use crate::strutil::join_with;
use crate::test_framework::find_nearest_for;
use crate::test_framework::line_back_range;
use crate::test_framework::np_view;
use crate::test_framework::tp_view;
use crate::utils;
use crate::utils::is_executable;
use crate::ArgsList;
use crate::errors::AnytestError;
use vstd::prelude::*;

verus! {

/// pytest: test files are `test_*.py` or `*_test.py`; one test is named
/// as `file::Class::test_method`, the pieces joined with `::`.
#[derive(Debug)]
pub struct Pytest {
    pub language: Python,
    /// The file pattern a suitable path must match.
    pub pattern: String,
    /// Empty: the executable is looked up per project.
    pub executable: Vec<String>,
    pub test_pattern: String,
    pub namespace_pattern: String,
}

impl Default for Pytest {
    fn default() -> (r: Self)
        ensures
            r.pattern@ == r"(test_[^/\\]+|[^/\\]+_test)\.py$"@,
            r.executable@.len() == 0,
            r.test_pattern@ == r"\s*(?:async )?def (test_\w+)"@,
            r.namespace_pattern@ == r"\s*class (\w+)"@,
    {
        Pytest {
            language: Python {  },
            pattern: String::from_str(r"(test_[^/\\]+|[^/\\]+_test)\.py$"),
            executable: Vec::new(),
            test_pattern: String::from_str(r"\s*(?:async )?def (test_\w+)"),
            namespace_pattern: String::from_str(r"\s*class (\w+)"),
        }
    }
}

/// One of the runner invocations pytest is reached by.
pub open spec fn pytest_base(b: Seq<Seq<char>>) -> bool {
    ||| b == seq!["pytest"@]
    ||| b == seq!["py.test"@]
    ||| b == seq!["python"@, "-m"@, "pytest"@]
}

impl Pytest {
    /// A pytest runner from the search path, behind the project's
    /// package manager when a `Pipfile`, `poetry.lock` or `pdm.lock` is
    /// present.
    pub fn build_executable(&self, context: &Context) -> (r: ArgsList)
        requires
            context.rel_path.wf(),
        ensures
            exists|b: Seq<Seq<char>>|
                #[trigger] pytest_base(b) && (r.deep_view() == b || r.deep_view() == seq![
                    "pipenv"@,
                    "run"@,
                ] + b || r.deep_view() == seq!["poetry"@, "run"@] + b || r.deep_view() == seq![
                    "pdm"@,
                    "run"@,
                ] + b),
    {
        let mut executable: Vec<String> = Vec::new();
        if is_executable("pytest") {
            executable.push(String::from_str("pytest"));
            proof {
                assert(executable.deep_view() =~= seq!["pytest"@]);
            }
        } else if is_executable("py.test") {
            executable.push(String::from_str("py.test"));
            proof {
                assert(executable.deep_view() =~= seq!["py.test"@]);
            }
        } else {
            executable.push(String::from_str("python"));
            executable.push(String::from_str("-m"));
            executable.push(String::from_str("pytest"));
            proof {
                assert(executable.deep_view() =~= seq!["python"@, "-m"@, "pytest"@]);
            }
        }
        let ghost base = executable.deep_view();
        proof {
            assert(pytest_base(base));
        }

        if context.find_file("Pipfile").is_some() {
            let mut prefix: Vec<String> = Vec::new();
            prefix.push(String::from_str("pipenv"));
            prefix.push(String::from_str("run"));
            let out = utils::concat(prefix, executable);
            proof {
                assert(out.deep_view() =~= seq!["pipenv"@, "run"@] + base);
            }
            out
        } else if context.find_file("poetry.lock").is_some() {
            let mut prefix: Vec<String> = Vec::new();
            prefix.push(String::from_str("poetry"));
            prefix.push(String::from_str("run"));
            let out = utils::concat(prefix, executable);
            proof {
                assert(out.deep_view() =~= seq!["poetry"@, "run"@] + base);
            }
            out
        } else if context.find_file("pdm.lock").is_some() {
            let mut prefix: Vec<String> = Vec::new();
            prefix.push(String::from_str("pdm"));
            prefix.push(String::from_str("run"));
            let out = utils::concat(prefix, executable);
            proof {
                assert(out.deep_view() =~= seq!["pdm"@, "run"@] + base);
            }
            out
        } else {
            executable
        }
    }

    /// One positional argument: the file, the namespace chain and the
    /// test name joined with `::`.
    pub fn build_line_position_args(&self, context: &Context, file_lines: &Vec<String>) -> (r:
        Result<ArgsList, AnytestError>)
        requires
            context.rel_path.wf(),
            context.line_nr matches Some(n) ==> n < usize::MAX,
        ensures
            context.line_nr is None ==> r == Err::<ArgsList, AnytestError>(
                AnytestError::MissingLineNumber,
            ),
            context.line_nr matches Some(line) ==> (line == 0 ==> r == Err::<
                ArgsList,
                AnytestError,
            >(AnytestError::InvalidLowerBound)),
            context.line_nr matches Some(line) ==> (line >= 1 && sel_ok(
                file_lines@.len() as int,
                line_back_range(line as int),
            ) ==> r is Ok),
            context.line_nr matches Some(line) ==> (line >= 1 && !sel_ok(
                file_lines@.len() as int,
                line_back_range(line as int),
            ) ==> r == Err::<ArgsList, AnytestError>(AnytestError::LineNotFound(seek_target(
                line_back_range(line as int),
            ) as usize))),
            r matches Ok(a) ==> context.line_nr matches Some(line) && ({
                let near = nearest_spec(
                    tp_view(self.test_pattern@),
                    np_view(self.namespace_pattern@),
                    sel_seq(file_lines.deep_view(), line_back_range(line as int)),
                );
                a.deep_view() == seq![
                    join_sep(seq![context.rel_path.rel@] + near.1 + near.0, "::"@),
                ]
            }),
    {
        let nearest = match find_nearest_for(
            self.test_pattern.as_str(),
            self.namespace_pattern.as_str(),
            context,
            file_lines,
        ) {
            Ok(n) => n,
            Err(e) => {
                return Err(e);
            },
        };

        let mut pieces: Vec<String> = Vec::new();
        pieces.push(String::from_str(context.rel_str()));
        let nns = nearest.namespaces.len();
        let mut i: usize = 0;
        while i < nns
            invariant
                nns == nearest.namespaces@.len(),
                i <= nns,
                pieces.deep_view() =~= seq![context.rel_path.rel@] + nearest.namespaces.deep_view()
                    .take(i as int),
            decreases nns - i,
        {
            let ghost old_dv = pieces.deep_view();
            pieces.push(nearest.namespaces[i].clone());
            proof {
                assert(pieces.deep_view() =~= old_dv.push(nearest.namespaces.deep_view()[i as int]));
                assert(pieces.deep_view() =~= seq![context.rel_path.rel@]
                    + nearest.namespaces.deep_view().take(i + 1));
            }
            i += 1;
        }
        let nts = nearest.tests.len();
        let mut j: usize = 0;
        while j < nts
            invariant
                nts == nearest.tests@.len(),
                j <= nts,
                pieces.deep_view() =~= seq![context.rel_path.rel@] + nearest.namespaces.deep_view()
                    + nearest.tests.deep_view().take(j as int),
            decreases nts - j,
        {
            let ghost old_dv = pieces.deep_view();
            pieces.push(nearest.tests[j].clone());
            proof {
                assert(pieces.deep_view() =~= old_dv.push(nearest.tests.deep_view()[j as int]));
                assert(pieces.deep_view() =~= seq![context.rel_path.rel@]
                    + nearest.namespaces.deep_view() + nearest.tests.deep_view().take(j + 1));
            }
            j += 1;
        }
        proof {
            assert(nearest.namespaces.deep_view().take(nns as int) =~= nearest.namespaces.deep_view());
            assert(nearest.tests.deep_view().take(nts as int) =~= nearest.tests.deep_view());
            assert(pieces.deep_view() =~= seq![context.rel_path.rel@]
                + nearest.namespaces.deep_view() + nearest.tests.deep_view());
        }

        let arg = join_with(&pieces, "::");
        let mut out: Vec<String> = Vec::new();
        out.push(arg);
        proof {
            reveal_strlit("::");
            assert(out.deep_view() =~= seq![
                join_sep(
                    seq![context.rel_path.rel@] + nearest.namespaces.deep_view()
                        + nearest.tests.deep_view(),
                    "::"@,
                ),
            ]);
        }
        Ok(out)
    }
}

} // verus!
