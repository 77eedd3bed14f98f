//! The Jest test framework.

use super::JavaScript;
use crate::context::nearest_spec;
use crate::context::Context;
use crate::line_select::seek_target;
use crate::line_select::sel_ok;
use crate::line_select::sel_seq;
use crate::strutil::join_sep;
use crate::strutil::join_with;
use crate::test_framework::find_nearest_for;
use crate::test_framework::line_back_range;
use crate::test_framework::np_view;
use crate::test_framework::tp_view;
use crate::utils;
use crate::utils::eoo;
use crate::ArgsList;
use crate::errors::AnytestError;
use vstd::prelude::*;

verus! {

/// Jest: test files live under `__tests__` or end in `spec`/`test`
/// suffixes; one test is picked with `-t` and a name built from the
/// enclosing `describe`s and the `it`/`test` title.
#[derive(Debug)]
pub struct Jest {
    pub language: JavaScript,
    /// The file pattern a suitable path must match.
    pub pattern: String,
    /// Empty: the executable is looked up per project.
    pub executable: Vec<String>,
    /// Extra arguments the runner always takes.
    pub args: Vec<String>,
    pub test_pattern: String,
    pub namespace_pattern: String,
}

impl Default for Jest {
    fn default() -> (r: Self)
        ensures
            r.pattern@ == r"(__tests__[/\\].*|(spec|test))\.(js|jsx|coffee|ts|tsx)$"@,
            r.executable@.len() == 0,
            r.args@.len() == 1 && r.args@[0]@ == "--runTestsByPath"@,
            r.test_pattern@ == r#"^\s*(?:it|test)\s*[\( ]\s*["'`](.*?)["'`]"#@,
            r.namespace_pattern@ == r#"^\s*(?:describe|suite|context)\s*[( ]\s*["'`](.*?)["'`]"#@,
    {
        let mut args: Vec<String> = Vec::new();
        args.push(String::from_str("--runTestsByPath"));
        Jest {
            language: JavaScript {  },
            pattern: String::from_str(r"(__tests__[/\\].*|(spec|test))\.(js|jsx|coffee|ts|tsx)$"),
            executable: Vec::new(),
            args,
            test_pattern: String::from_str(r#"^\s*(?:it|test)\s*[\( ]\s*["'`](.*?)["'`]"#),
            namespace_pattern: String::from_str(
                r#"^\s*(?:describe|suite|context)\s*[( ]\s*["'`](.*?)["'`]"#,
            ),
        }
    }
}

/// The `-t` filter Jest is handed: the namespace chain and the test
/// title joined with spaces, anchored at the front when a namespace is
/// known and at the back when a test is known.
pub open spec fn jest_name(tests: Seq<Seq<char>>, namespaces: Seq<Seq<char>>) -> Seq<char> {
    (if namespaces.len() > 0 {
        seq!['^']
    } else {
        Seq::<char>::empty()
    }) + join_sep(namespaces + tests, seq![' ']) + (if tests.len() > 0 {
        seq!['$']
    } else {
        Seq::<char>::empty()
    })
}

impl Jest {
    /// The project's own Jest binary when one is installed, the bare
    /// `jest` otherwise.
    pub fn build_executable(&self, context: &Context) -> (r: ArgsList)
        requires
            context.rel_path.wf(),
        ensures
            r.deep_view() == seq!["node_modules/.bin/jest"@] || r.deep_view() == seq!["jest"@],
    {
        proof {
            reveal_strlit("node_modules/.bin/jest");
        }
        let mut args: Vec<String> = Vec::new();
        match context.find_file("node_modules/.bin/jest") {
            Some(bin) => {
                args.push(String::from_str(bin.rel_str()));
                proof {
                    assert(args.deep_view() =~= seq!["node_modules/.bin/jest"@]);
                }
            },
            None => {
                args.push(String::from_str("jest"));
                proof {
                    assert(args.deep_view() =~= seq!["jest"@]);
                }
            },
        }
        args
    }

    /// The end-of-options marker and the file.
    pub fn build_file_position_args(&self, context: &Context) -> (r: ArgsList)
        ensures
            r.deep_view() == seq!["--"@, context.rel_path.rel@],
    {
        let mut args: Vec<String> = Vec::new();
        args.push(eoo());
        args.push(String::from_str(context.rel_str()));
        proof {
            assert(args.deep_view() =~= seq!["--"@, context.rel_path.rel@]);
        }
        args
    }

    /// The file arguments, preceded by a `-t` name filter when the
    /// backward scan found anything to name.
    pub fn build_line_position_args(&self, context: &Context, file_lines: &Vec<String>) -> (r:
        Result<ArgsList, AnytestError>)
        requires
            context.rel_path.wf(),
            context.line_nr matches Some(n) ==> n < usize::MAX,
        ensures
            context.line_nr is None ==> r == Err::<ArgsList, AnytestError>(
                AnytestError::MissingLineNumber,
            ),
            context.line_nr matches Some(line) ==> (line == 0 ==> r == Err::<
                ArgsList,
                AnytestError,
            >(AnytestError::InvalidLowerBound)),
            context.line_nr matches Some(line) ==> (line >= 1 && sel_ok(
                file_lines@.len() as int,
                line_back_range(line as int),
            ) ==> r is Ok),
            context.line_nr matches Some(line) ==> (line >= 1 && !sel_ok(
                file_lines@.len() as int,
                line_back_range(line as int),
            ) ==> r == Err::<ArgsList, AnytestError>(AnytestError::LineNotFound(seek_target(
                line_back_range(line as int),
            ) as usize))),
            r matches Ok(a) ==> context.line_nr matches Some(line) && ({
                let near = nearest_spec(
                    tp_view(self.test_pattern@),
                    np_view(self.namespace_pattern@),
                    sel_seq(file_lines.deep_view(), line_back_range(line as int)),
                );
                let name = jest_name(near.0, near.1);
                if name.len() == 0 {
                    a.deep_view() == seq!["--"@, context.rel_path.rel@]
                } else {
                    a.deep_view() == seq!["-t"@, name, "--"@, context.rel_path.rel@]
                }
            }),
    {
        let args = self.build_file_position_args(context);
        let nearest = match find_nearest_for(
            self.test_pattern.as_str(),
            self.namespace_pattern.as_str(),
            context,
            file_lines,
        ) {
            Ok(n) => n,
            Err(e) => {
                return Err(e);
            },
        };

        let mut pieces: Vec<String> = Vec::new();
        let mut i: usize = 0;
        let nns = nearest.namespaces.len();
        while i < nns
            invariant
                nns == nearest.namespaces@.len(),
                i <= nns,
                pieces.deep_view() =~= nearest.namespaces.deep_view().take(i as int),
            decreases nns - i,
        {
            let ghost old_dv = pieces.deep_view();
            pieces.push(nearest.namespaces[i].clone());
            proof {
                assert(pieces.deep_view() =~= old_dv.push(nearest.namespaces.deep_view()[i as int]));
                assert(pieces.deep_view() =~= nearest.namespaces.deep_view().take(i + 1));
            }
            i += 1;
        }
        let nts = nearest.tests.len();
        let mut j: usize = 0;
        while j < nts
            invariant
                nts == nearest.tests@.len(),
                j <= nts,
                pieces.deep_view() =~= nearest.namespaces.deep_view() + nearest.tests.deep_view()
                    .take(j as int),
            decreases nts - j,
        {
            let ghost old_dv = pieces.deep_view();
            pieces.push(nearest.tests[j].clone());
            proof {
                assert(pieces.deep_view() =~= old_dv.push(nearest.tests.deep_view()[j as int]));
                assert(pieces.deep_view() =~= nearest.namespaces.deep_view()
                    + nearest.tests.deep_view().take(j + 1));
            }
            j += 1;
        }
        proof {
            assert(nearest.namespaces.deep_view().take(nns as int) =~= nearest.namespaces.deep_view());
            assert(nearest.tests.deep_view().take(nts as int) =~= nearest.tests.deep_view());
        }

        let joined = join_with(&pieces, " ");
        let mut name = String::new();
        if nearest.namespaces.len() > 0 {
            name.append("^");
        }
        name.append(joined.as_str());
        if nearest.tests.len() > 0 {
            name.append("$");
        }
        proof {
            reveal_strlit("^");
            reveal_strlit("$");
            reveal_strlit(" ");
            assert("^"@ =~= seq!['^']);
            assert("$"@ =~= seq!['$']);
            assert(" "@ =~= seq![' ']);
            assert(name@ =~= jest_name(nearest.tests.deep_view(), nearest.namespaces.deep_view()));
        }

        if name.unicode_len() == 0 {
            Ok(args)
        } else {
            let mut prefix: Vec<String> = Vec::new();
            prefix.push(String::from_str("-t"));
            prefix.push(name);
            let out = utils::concat(prefix, args);
            proof {
                assert(out.deep_view() =~= seq!["-t"@, jest_name(
                    nearest.tests.deep_view(),
                    nearest.namespaces.deep_view(),
                ), "--"@, context.rel_path.rel@]);
            }
            Ok(out)
        }
    }
}

} // verus!
