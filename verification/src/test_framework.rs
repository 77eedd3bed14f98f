//! The closed set of supported test frameworks, and the contract each
//! fulfils towards the dispatcher: which files it accepts, which
//! executable it runs, and which positional arguments it builds for a
//! suite, a file or a single line.

use crate::context::nearest_spec;
use crate::context::Scope;
use crate::context::Context;
use crate::context::Nearest;
use crate::errors::AnytestError;
use crate::line_range::LineBound;
use crate::line_range::LRange;
use crate::line_select::seek_target;
use crate::line_select::sel_ok;
use crate::line_select::sel_seq;
use crate::locator::opt_line_view;
use crate::locator::pats_view;
use crate::named_pattern::regex_is_match;
use crate::named_pattern::regex_matches;
use crate::named_pattern::NamedPattern;
use crate::strutil::join_sep;
use crate::utils::clone_args;
use crate::registry::elixir::ESpec;
use crate::registry::elixir::ExUnit;
use crate::registry::javascript::jest::jest_name;
use crate::registry::javascript::Jest;
use crate::registry::python::pytest::pytest_base;
use crate::registry::python::Pytest;
use crate::registry::ruby::RSpec;
use crate::registry::rust::cargotest::cargo_d_ok;
use crate::registry::rust::cargotest::cargo_file_args;
use crate::registry::rust::cargotest::cargo_line_result_ok;
use crate::registry::rust::cargotest::cargo_modules;
use crate::registry::rust::Cargotest;
use crate::registry::zig::Zigtest;
use crate::ArgsList;
use vstd::prelude::*;

verus! {

/// The single-element test-pattern list every framework supplies.
pub open spec fn tp_view(tp: Seq<char>) -> Seq<Seq<char>> {
    seq![tp]
}

/// The namespace-pattern list: empty when the language has no namespace
/// construct, a single pattern otherwise.
pub open spec fn np_view(np: Seq<char>) -> Seq<Seq<char>> {
    if np.len() == 0 {
        Seq::<Seq<char>>::empty()
    } else {
        seq![np]
    }
}

/// The backward range every line-scoped search walks: from the cursor
/// down to line 1.
pub open spec fn line_back_range(line: int) -> LRange {
    LRange {
        start: line as usize,
        step: if line > 1 {
            -1 as isize
        } else {
            1 as isize
        },
        end: Some(1 as usize),
    }
}

/// Scans backward from the context's cursor line for the nearest test
/// and its enclosing namespaces, with one test pattern and at most one
/// namespace pattern.
pub fn find_nearest_for(
    test_pattern: &str,
    namespace_pattern: &str,
    context: &Context,
    file_lines: &Vec<String>,
) -> (r: Result<Nearest, AnytestError>)
    requires
        context.line_nr matches Some(n) ==> n < usize::MAX,
    ensures
        context.line_nr is None <==> r == Err::<Nearest, AnytestError>(
            AnytestError::MissingLineNumber,
        ),
        context.line_nr matches Some(line) ==> (line == 0 <==> r == Err::<Nearest, AnytestError>(
            AnytestError::InvalidLowerBound,
        )),
        context.line_nr matches Some(line) ==> (line >= 1 ==> match r {
            Ok(n) => {
                let near = nearest_spec(
                    tp_view(test_pattern@),
                    np_view(namespace_pattern@),
                    sel_seq(file_lines.deep_view(), line_back_range(line as int)),
                );
                &&& sel_ok(file_lines@.len() as int, line_back_range(line as int))
                &&& n.tests.deep_view() == near.0
                &&& n.namespaces.deep_view() == near.1
                &&& opt_line_view(n.line_nr) == near.2
                &&& (n.tests@.len() > 0 ==> n.line_nr is Some)
            },
            Err(e) => !sel_ok(file_lines@.len() as int, line_back_range(line as int)) && e
                == AnytestError::LineNotFound(seek_target(line_back_range(line as int)) as usize),
        }),
{
    let line = match context.line_nr() {
        Some(l) => l,
        None => {
            return Err(AnytestError::MissingLineNumber);
        },
    };
    let range = match LRange::try_from_range(LineBound::Included(line), LineBound::Included(1)) {
        Ok(rg) => rg,
        Err(e) => {
            return Err(e);
        },
    };
    let mut test_patterns: Vec<NamedPattern> = Vec::new();
    test_patterns.push(NamedPattern::new(test_pattern, None));
    let mut namespace_patterns: Vec<NamedPattern> = Vec::new();
    if namespace_pattern.unicode_len() > 0 {
        namespace_patterns.push(NamedPattern::new(namespace_pattern, None));
    }
    proof {
        assert(pats_view(test_patterns@) =~= tp_view(test_pattern@));
        assert(pats_view(namespace_patterns@) =~= np_view(namespace_pattern@));
        assert(range == line_back_range(line as int));
    }
    context.find_nearest(&test_patterns, &namespace_patterns, file_lines, range)
}

/// One registered test framework.
#[derive(Debug)]
pub enum Framework {
    ESpec(ESpec),
    ExUnit(ExUnit),
    Jest(Jest),
    Pytest(Pytest),
    RSpec(RSpec),
    Cargotest(Cargotest),
    Zigtest(Zigtest),
}

impl Framework {
    /// The file pattern this framework accepts.
    pub open spec fn pattern_view(&self) -> Seq<char> {
        match self {
            Framework::ESpec(f) => f.pattern@,
            Framework::ExUnit(f) => f.pattern@,
            Framework::Jest(f) => f.pattern@,
            Framework::Pytest(f) => f.pattern@,
            Framework::RSpec(f) => f.pattern@,
            Framework::Cargotest(f) => f.pattern@,
            Framework::Zigtest(f) => f.pattern@,
        }
    }

    /// This framework's test pattern.
    pub open spec fn test_pattern_view(&self) -> Seq<char> {
        match self {
            Framework::ESpec(f) => f.test_pattern@,
            Framework::ExUnit(f) => f.test_pattern@,
            Framework::Jest(f) => f.test_pattern@,
            Framework::Pytest(f) => f.test_pattern@,
            Framework::RSpec(f) => f.test_pattern@,
            Framework::Cargotest(f) => f.test_pattern@,
            Framework::Zigtest(f) => f.test_pattern@,
        }
    }

    /// This framework's namespace pattern.
    pub open spec fn namespace_pattern_view(&self) -> Seq<char> {
        match self {
            Framework::ESpec(f) => f.namespace_pattern@,
            Framework::ExUnit(f) => f.namespace_pattern@,
            Framework::Jest(f) => f.namespace_pattern@,
            Framework::Pytest(f) => f.namespace_pattern@,
            Framework::RSpec(f) => f.namespace_pattern@,
            Framework::Cargotest(f) => f.namespace_pattern@,
            Framework::Zigtest(f) => f.namespace_pattern@,
        }
    }

    fn test_pattern_str(&self) -> (r: &str)
        ensures
            r@ == self.test_pattern_view(),
    {
        match self {
            Framework::ESpec(f) => f.test_pattern.as_str(),
            Framework::ExUnit(f) => f.test_pattern.as_str(),
            Framework::Jest(f) => f.test_pattern.as_str(),
            Framework::Pytest(f) => f.test_pattern.as_str(),
            Framework::RSpec(f) => f.test_pattern.as_str(),
            Framework::Cargotest(f) => f.test_pattern.as_str(),
            Framework::Zigtest(f) => f.test_pattern.as_str(),
        }
    }

    fn namespace_pattern_str(&self) -> (r: &str)
        ensures
            r@ == self.namespace_pattern_view(),
    {
        match self {
            Framework::ESpec(f) => f.namespace_pattern.as_str(),
            Framework::ExUnit(f) => f.namespace_pattern.as_str(),
            Framework::Jest(f) => f.namespace_pattern.as_str(),
            Framework::Pytest(f) => f.namespace_pattern.as_str(),
            Framework::RSpec(f) => f.namespace_pattern.as_str(),
            Framework::Cargotest(f) => f.namespace_pattern.as_str(),
            Framework::Zigtest(f) => f.namespace_pattern.as_str(),
        }
    }

    /// This framework's test patterns, as the locator takes them.
    pub fn test_patterns(&self) -> (r: Vec<NamedPattern>)
        ensures
            pats_view(r@) == tp_view(self.test_pattern_view()),
    {
        let mut ps: Vec<NamedPattern> = Vec::new();
        ps.push(NamedPattern::new(self.test_pattern_str(), None));
        proof {
            assert(pats_view(ps@) =~= tp_view(self.test_pattern_view()));
        }
        ps
    }

    /// This framework's namespace patterns: empty when the language has
    /// no namespace construct.
    pub fn namespace_patterns(&self) -> (r: Vec<NamedPattern>)
        ensures
            pats_view(r@) == np_view(self.namespace_pattern_view()),
    {
        let mut ps: Vec<NamedPattern> = Vec::new();
        let np = self.namespace_pattern_str();
        if np.unicode_len() > 0 {
            ps.push(NamedPattern::new(np, None));
        }
        proof {
            assert(pats_view(ps@) =~= np_view(self.namespace_pattern_view()));
        }
        ps
    }

    /// Whether this framework accepts the context's file: its file
    /// pattern matches the absolute path.
    pub fn is_suitable_for(&self, context: &Context) -> (r: bool)
        ensures
            r == regex_matches(self.pattern_view(), context.rel_path.path@),
    {
        match self {
            Framework::ESpec(f) => regex_is_match(f.pattern.as_str(), context.path().as_str()),
            Framework::ExUnit(f) => regex_is_match(f.pattern.as_str(), context.path().as_str()),
            Framework::Jest(f) => regex_is_match(f.pattern.as_str(), context.path().as_str()),
            Framework::Pytest(f) => regex_is_match(f.pattern.as_str(), context.path().as_str()),
            Framework::RSpec(f) => regex_is_match(f.pattern.as_str(), context.path().as_str()),
            Framework::Cargotest(f) => regex_is_match(f.pattern.as_str(), context.path().as_str()),
            Framework::Zigtest(f) => regex_is_match(f.pattern.as_str(), context.path().as_str()),
        }
    }

    /// The command that runs this framework: the fixed executable where
    /// one is configured, the per-project lookup otherwise.
    pub fn executable(&self, context: &Context) -> (r: ArgsList)
        requires
            context.rel_path.wf(),
        ensures
            match self {
                Framework::ESpec(f) => r.deep_view() == f.executable.deep_view(),
                Framework::ExUnit(f) => if f.executable@.len() > 0 {
                    r.deep_view() == f.executable.deep_view()
                } else {
                    r.deep_view() == seq!["mix"@, "test"@] || r.deep_view() == seq!["elixir"@]
                },
                Framework::Jest(f) => if f.executable@.len() > 0 {
                    r.deep_view() == f.executable.deep_view()
                } else {
                    r.deep_view() == seq!["node_modules/.bin/jest"@] || r.deep_view() == seq![
                        "jest"@,
                    ]
                },
                Framework::Pytest(f) => f.executable@.len() == 0 ==> exists|b: Seq<Seq<char>>|
                    #[trigger] pytest_base(b) && (r.deep_view() == b || r.deep_view() == seq![
                        "pipenv"@,
                        "run"@,
                    ] + b || r.deep_view() == seq!["poetry"@, "run"@] + b || r.deep_view() == seq![
                        "pdm"@,
                        "run"@,
                    ] + b),
                Framework::RSpec(f) => if f.executable@.len() > 0 {
                    r.deep_view() == f.executable.deep_view()
                } else {
                    r.deep_view() == seq!["rspec"@] || r.deep_view() == seq!["zeus"@, "rspec"@]
                        || r.deep_view() == seq!["bin/spring"@, "rspec"@] || r.deep_view() == seq![
                        "bin/rspec"@,
                        "rspec"@,
                    ] || r.deep_view() == seq!["bundle"@, "exec"@, "rspec"@]
                },
                Framework::Cargotest(f) => r.deep_view() == f.executable.deep_view(),
                Framework::Zigtest(f) => r.deep_view() == f.executable.deep_view(),
            },
    {
        match self {
            Framework::ESpec(f) => clone_args(&f.executable),
            Framework::ExUnit(f) => {
                if f.executable.len() > 0 {
                    clone_args(&f.executable)
                } else {
                    f.build_executable(context)
                }
            },
            Framework::Jest(f) => {
                if f.executable.len() > 0 {
                    clone_args(&f.executable)
                } else {
                    f.build_executable(context)
                }
            },
            Framework::Pytest(f) => {
                if f.executable.len() > 0 {
                    clone_args(&f.executable)
                } else {
                    f.build_executable(context)
                }
            },
            Framework::RSpec(f) => {
                if f.executable.len() > 0 {
                    clone_args(&f.executable)
                } else {
                    f.build_executable(context)
                }
            },
            Framework::Cargotest(f) => clone_args(&f.executable),
            Framework::Zigtest(f) => clone_args(&f.executable),
        }
    }

    /// Scans backward from the context's cursor for this framework's
    /// nearest test.  Fails with `MissingLineNumber` when the context has
    /// no line.
    pub fn find_nearest(&self, context: &Context, file_lines: &Vec<String>) -> (r: Result<
        Nearest,
        AnytestError,
    >)
        requires
            context.line_nr matches Some(n) ==> n < usize::MAX,
        ensures
            context.line_nr is None <==> r == Err::<Nearest, AnytestError>(
                AnytestError::MissingLineNumber,
            ),
            context.line_nr matches Some(line) ==> (line == 0 <==> r == Err::<
                Nearest,
                AnytestError,
            >(AnytestError::InvalidLowerBound)),
            context.line_nr matches Some(line) ==> (line >= 1 ==> match r {
                Ok(n) => {
                    let near = nearest_spec(
                        tp_view(self.test_pattern_view()),
                        np_view(self.namespace_pattern_view()),
                        sel_seq(file_lines.deep_view(), line_back_range(line as int)),
                    );
                    &&& sel_ok(file_lines@.len() as int, line_back_range(line as int))
                    &&& n.tests.deep_view() == near.0
                    &&& n.namespaces.deep_view() == near.1
                    &&& opt_line_view(n.line_nr) == near.2
                    &&& (n.tests@.len() > 0 ==> n.line_nr is Some)
                },
                Err(e) => !sel_ok(file_lines@.len() as int, line_back_range(line as int)) && e
                    == AnytestError::LineNotFound(seek_target(line_back_range(line as int)) as usize),
            }),
    {
        find_nearest_for(
            self.test_pattern_str(),
            self.namespace_pattern_str(),
            context,
            file_lines,
        )
    }

    /// What a suite-scope argument list must be, per framework.
    pub open spec fn suite_args_ok(&self, a: Seq<Seq<char>>) -> bool {
        match self {
            Framework::ExUnit(_) => a == Seq::<Seq<char>>::empty() || a == seq!["*.exs"@],
            Framework::Zigtest(_) => a == seq!["build"@, "test"@],
            _ => a == Seq::<Seq<char>>::empty(),
        }
    }

    /// What a file-scope argument list must be, per framework.
    pub open spec fn file_args_ok(&self, context: Context, a: Seq<Seq<char>>) -> bool {
        match self {
            Framework::Jest(_) => a == seq!["--"@, context.rel_path.rel@],
            Framework::Zigtest(_) => a == seq!["test"@, context.rel_path.rel@],
            Framework::Cargotest(_) => exists|d: int|
                #[trigger] cargo_d_ok(cargo_modules(context.rel_path.rel@), d) && a
                    == cargo_file_args(cargo_modules(context.rel_path.rel@), d),
            _ => a == seq![context.rel_path.rel@],
        }
    }

    /// What a line-scope argument list must be, per framework: the
    /// `relative:line` default, or the framework's own naming of the
    /// nearest test found in `lines`.
    pub open spec fn line_args_ok(
        &self,
        context: Context,
        lines: Seq<Seq<char>>,
        a: Seq<Seq<char>>,
    ) -> bool {
        match self {
            Framework::ESpec(_) => a == seq![context.rel_full_view()],
            Framework::RSpec(_) => a == seq![context.rel_full_view()],
            Framework::ExUnit(_) => a == seq![context.rel_path.rel@] || a == seq![
                context.rel_full_view(),
            ],
            Framework::Jest(f) => context.line_nr matches Some(line) && {
                let near = nearest_spec(
                    tp_view(f.test_pattern@),
                    np_view(f.namespace_pattern@),
                    sel_seq(lines, line_back_range(line as int)),
                );
                let name = jest_name(near.0, near.1);
                if name.len() == 0 {
                    a == seq!["--"@, context.rel_path.rel@]
                } else {
                    a == seq!["-t"@, name, "--"@, context.rel_path.rel@]
                }
            },
            Framework::Pytest(f) => context.line_nr matches Some(line) && {
                let near = nearest_spec(
                    tp_view(f.test_pattern@),
                    np_view(f.namespace_pattern@),
                    sel_seq(lines, line_back_range(line as int)),
                );
                a == seq![join_sep(seq![context.rel_path.rel@] + near.1 + near.0, "::"@)]
            },
            Framework::Cargotest(f) => exists|d: int|
                #[trigger] cargo_d_ok(cargo_modules(context.rel_path.rel@), d)
                    && cargo_line_result_ok(f, context, lines, d, a),
            Framework::Zigtest(f) => context.line_nr matches Some(line) && {
                let near = nearest_spec(
                    tp_view(f.test_pattern@),
                    np_view(f.namespace_pattern@),
                    sel_seq(lines, line_back_range(line as int)),
                );
                if near.0.len() == 0 {
                    a == seq!["test"@, context.rel_path.rel@]
                } else {
                    a == seq!["test"@, context.rel_path.rel@, "--test-filter"@, seq!['\''] + join_sep(
                        near.0,
                        Seq::<char>::empty(),
                    ) + seq!['\'']]
                }
            },
        }
    }

    /// The positional arguments for a whole-suite run: nothing, unless
    /// the framework asks for more.
    pub fn build_suite_position_args(&self, context: &Context) -> (r: Result<
        ArgsList,
        AnytestError,
    >)
        requires
            context.rel_path.wf(),
        ensures
            r is Ok,
            r matches Ok(a) ==> self.suite_args_ok(a.deep_view()),
    {
        match self {
            Framework::ExUnit(f) => Ok(f.build_suite_position_args(context)),
            Framework::Zigtest(f) => Ok(f.build_suite_position_args(context)),
            _ => {
                let args: Vec<String> = Vec::new();
                proof {
                    assert(args.deep_view() =~= Seq::<Seq<char>>::empty());
                }
                Ok(args)
            },
        }
    }

    /// The positional arguments for a one-file run: the root-relative
    /// path, unless the framework shapes it otherwise.
    pub fn build_file_position_args(&self, context: &Context) -> (r: Result<
        ArgsList,
        AnytestError,
    >)
        requires
            context.rel_path.wf(),
        ensures
            r is Ok,
            r matches Ok(a) ==> self.file_args_ok(*context, a.deep_view()),
    {
        match self {
            Framework::Jest(f) => Ok(f.build_file_position_args(context)),
            Framework::Cargotest(f) => f.build_file_position_args(context),
            Framework::Zigtest(f) => Ok(f.build_file_position_args(context)),
            _ => {
                let mut args: Vec<String> = Vec::new();
                args.push(String::from_str(context.rel_str()));
                proof {
                    assert(args.deep_view() =~= seq![context.rel_path.rel@]);
                }
                Ok(args)
            },
        }
    }

    /// The positional arguments for a one-line run: `relative:line`,
    /// unless the framework names the test another way.  The frameworks
    /// that scan the file fail with `MissingLineNumber` when the context
    /// has no line; the rest never fail.
    pub fn build_line_position_args(&self, context: &Context, file_lines: &Vec<String>) -> (r:
        Result<ArgsList, AnytestError>)
        requires
            context.rel_path.wf(),
            context.line_nr matches Some(n) ==> n < usize::MAX,
        ensures
            match self {
                Framework::ESpec(_) => r is Ok,
                Framework::RSpec(_) => r is Ok,
                Framework::ExUnit(_) => r is Ok,
                _ => context.line_nr is None ==> r == Err::<ArgsList, AnytestError>(
                    AnytestError::MissingLineNumber,
                ),
            },
            r matches Ok(a) ==> self.line_args_ok(*context, file_lines.deep_view(), a.deep_view()),
    {
        match self {
            Framework::ExUnit(f) => Ok(f.build_line_position_args(context)),
            Framework::Jest(f) => f.build_line_position_args(context, file_lines),
            Framework::Pytest(f) => f.build_line_position_args(context, file_lines),
            Framework::Cargotest(f) => f.build_line_position_args(context, file_lines),
            Framework::Zigtest(f) => f.build_line_position_args(context, file_lines),
            _ => {
                let mut args: Vec<String> = Vec::new();
                args.push(context.rel_full());
                proof {
                    assert(args.deep_view() =~= seq![context.rel_full_view()]);
                }
                Ok(args)
            },
        }
    }

    /// The positional arguments for the requested scope: the suite-,
    /// file- or line-scope builder's result, as the scope picks it.  Only
    /// the line-scoped builders of the scanning frameworks can fail.
    pub fn position_args(&self, context: &Context, file_lines: &Vec<String>) -> (r: Result<
        ArgsList,
        AnytestError,
    >)
        requires
            context.rel_path.wf(),
            context.line_nr matches Some(n) ==> n < usize::MAX,
        ensures
            context.scope == Scope::Suite ==> r is Ok,
            context.scope == Scope::File ==> r is Ok,
            r matches Ok(a) ==> (context.scope == Scope::Suite ==> self.suite_args_ok(
                a.deep_view(),
            )),
            r matches Ok(a) ==> (context.scope == Scope::File ==> self.file_args_ok(
                *context,
                a.deep_view(),
            )),
            r matches Ok(a) ==> (context.scope == Scope::Line ==> self.line_args_ok(
                *context,
                file_lines.deep_view(),
                a.deep_view(),
            )),
            context.scope == Scope::Line && context.line_nr is None ==> match self {
                Framework::ESpec(_) => r is Ok,
                Framework::RSpec(_) => r is Ok,
                Framework::ExUnit(_) => r is Ok,
                _ => r == Err::<ArgsList, AnytestError>(AnytestError::MissingLineNumber),
            },
    {
        match context.scope() {
            Scope::Suite => self.build_suite_position_args(context),
            Scope::File => self.build_file_position_args(context),
            Scope::Line => self.build_line_position_args(context, file_lines),
        }
    }
}

} // verus!
