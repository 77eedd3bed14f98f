//! The cargo test runner.
//!
//! One file maps to a module path under the crate (or a `--test` target,
//! or another workspace package found by probing for manifests); one line
//! maps to the exact test function named by the attribute above the
//! cursor and the function declaration below it.

use super::Rust;
use crate::context::Context;
use crate::errors::AnytestError;
use crate::line_range::LineBound;
use crate::line_range::LRange;
use crate::context::nearest_spec;
use crate::line_select::seek_target;
use crate::line_select::sel_ok;
use crate::line_select::sel_seq;
use crate::locator::pats_view;
use crate::named_pattern::NamedPattern;
use crate::rel_path::path_exists;
use crate::strutil::drop_ext;
use crate::strutil::has_substring;
use crate::strutil::drop_extension;
use crate::strutil::join_path_str;
use crate::strutil::join_sep;
use crate::strutil::join_with;
use crate::strutil::split_slash;
use crate::strutil::split_slash_str;
use crate::strutil::str_contains;
use crate::strutil::str_eq;
use crate::test_framework::find_nearest_for;
use crate::test_framework::line_back_range;
use crate::test_framework::np_view;
use crate::test_framework::tp_view;
use crate::utils::vec_prefix_clone;
use crate::utils::vec_suffix_clone;
use crate::ArgsList;
use vstd::prelude::*;

verus! {

/// cargo: any `.rs` file; tests are `#[test]`-like attributes inside
/// `mod tests` blocks.
#[derive(Debug)]
pub struct Cargotest {
    pub language: Rust,
    /// The file pattern a suitable path must match.
    pub pattern: String,
    /// The fixed executable.
    pub executable: Vec<String>,
    /// Extra arguments the runner always takes.
    pub args: Vec<String>,
    pub test_pattern: String,
    pub namespace_pattern: String,
    /// Matched forward from the attribute to find the test function's
    /// name.
    pub forward_test_pattern: String,
}

impl Default for Cargotest {
    fn default() -> (r: Self)
        ensures
            r.pattern@ == r".rs$"@,
            r.executable@.len() == 2 && r.executable@[0]@ == "cargo"@ && r.executable@[1]@
                == "test"@,
            r.args@.len() == 0,
            r.test_pattern@ == r"(#\[(?:\w+::|rs)?test)"@,
            r.namespace_pattern@ == r"mod (tests?)"@,
            r.forward_test_pattern@ == r"\s*(?:async )?fn\s+(\w+)"@,
    {
        let mut executable: Vec<String> = Vec::new();
        executable.push(String::from_str("cargo"));
        executable.push(String::from_str("test"));
        Cargotest {
            language: Rust {  },
            pattern: String::from_str(r".rs$"),
            executable,
            args: Vec::new(),
            test_pattern: String::from_str(r"(#\[(?:\w+::|rs)?test)"),
            namespace_pattern: String::from_str(r"mod (tests?)"),
            forward_test_pattern: String::from_str(r"\s*(?:async )?fn\s+(\w+)"),
        }
    }
}

/// The module chain a relative path denotes: its components without the
/// file extension, and without a trailing `main`, `lib` or `mod`.
pub open spec fn cargo_modules(rel: Seq<char>) -> Seq<Seq<char>> {
    let m = split_slash(drop_ext(rel));
    if m.len() > 0 && (m.last() == "main"@ || m.last() == "lib"@ || m.last() == "mod"@) {
        m.drop_last()
    } else {
        m
    }
}

/// `--package` and the package name, when a manifest probe chose the
/// split point `d`; nothing when none did (`d == 0`).
pub open spec fn cargo_package_args(ms: Seq<Seq<char>>, d: int) -> Seq<Seq<char>> {
    if d <= 0 {
        Seq::empty()
    } else {
        seq!["--package"@, ms[d - 1]]
    }
}

/// A valid split point: either no manifest was found, or one stood under
/// a proper prefix of the module chain.
pub open spec fn cargo_d_ok(ms: Seq<Seq<char>>, d: int) -> bool {
    d == 0 || (1 <= d && d < ms.len())
}

/// The file-scope arguments for split point `d`: the package arguments,
/// then a `--test` target for a top-level integration test, or the
/// module namespace with a trailing separator.
pub open spec fn cargo_file_args(ms: Seq<Seq<char>>, d: int) -> Seq<Seq<char>> {
    let pkg = cargo_package_args(ms, d);
    let m = ms.skip(if d >= 0 {
        d
    } else {
        0
    });
    if m.len() <= 1 {
        pkg
    } else if m.len() == 2 && m[0] == "tests"@ {
        pkg + seq!["--test"@, m[1]]
    } else {
        pkg + seq![join_sep(m.skip(1).push(Seq::<char>::empty()), "::"@)]
    }
}

/// The line-scope arguments: the file-scope arguments with their last
/// entry (unless it is a `--test` target) merged into the exact test
/// name, then `--` and `--exact`.
pub open spec fn cargo_line_shape(ms: Seq<Seq<char>>, d: int, name: Seq<char>) -> Seq<Seq<char>> {
    let base = cargo_file_args(ms, d);
    if base.len() > 0 && base[0] != "--test"@ {
        base.drop_last().push(base.last() + name).push("--"@).push("--exact"@)
    } else {
        base.push(name).push("--"@).push("--exact"@)
    }
}

/// The ascending range the forward scan walks: from the attribute line
/// found scanning backward to the cursor.
pub open spec fn cargo_fwd_range(start: int, end: int) -> LRange {
    LRange { start: start as usize, step: 1 as isize, end: Some(end as usize) }
}

/// The exact test name the line scope appends: the function found by the
/// forward scan; the backward scan's attribute capture when a module is
/// known but the forward scan found no function; `module::function` when
/// both are known.
pub open spec fn cargo_test_name(
    bt_tests: Seq<Seq<char>>,
    bt_ns: Seq<Seq<char>>,
    ft_tests: Seq<Seq<char>>,
) -> Seq<char> {
    if bt_ns.len() == 0 {
        if ft_tests.len() > 0 {
            ft_tests[0]
        } else {
            Seq::empty()
        }
    } else if ft_tests.len() == 0 {
        bt_tests[0]
    } else {
        bt_ns[0] + "::"@ + ft_tests[0]
    }
}

/// What the line-scope arguments must be for split point `d`: the plain
/// file-scope arguments when the backward scan finds no runnable test
/// attribute or nothing names the test, else the file-scope arguments
/// merged with the exact test name drawn from the two scans.
pub open spec fn cargo_line_result_ok(
    f: &Cargotest,
    context: Context,
    lines: Seq<Seq<char>>,
    d: int,
    a: Seq<Seq<char>>,
) -> bool {
    let ms = cargo_modules(context.rel_path.rel@);
    match context.line_nr {
        Some(line_u) => {
            let near_b = nearest_spec(
                tp_view(f.test_pattern@),
                np_view(f.namespace_pattern@),
                sel_seq(lines, line_back_range(line_u as int)),
            );
            if near_b.0.len() == 0 || !has_substring(near_b.0[0], "#["@) {
                a == cargo_file_args(ms, d)
            } else {
                match near_b.2 {
                    Some(bl) => if bl < 1 || bl > line_u as int {
                        a == cargo_file_args(ms, d)
                    } else {
                        let near_f = nearest_spec(
                            seq![f.forward_test_pattern@],
                            Seq::<Seq<char>>::empty(),
                            sel_seq(lines, cargo_fwd_range(bl, line_u as int)),
                        );
                        if near_b.1.len() == 0 && near_f.0.len() == 0 {
                            a == cargo_file_args(ms, d)
                        } else {
                            a == cargo_line_shape(
                                ms,
                                d,
                                cargo_test_name(near_b.0, near_b.1, near_f.0),
                            )
                        }
                    },
                    None => a == cargo_file_args(ms, d),
                }
            }
        },
        None => false,
    }
}

impl Cargotest {
    /// Maps the file onto cargo's test selection: probes ancestor
    /// directories for a manifest to pick a workspace package, then
    /// names the module chain, or the integration-test target.
    pub fn build_file_position_args(&self, context: &Context) -> (r: Result<
        ArgsList,
        AnytestError,
    >)
        ensures
            r is Ok,
            r matches Ok(a) ==> exists|d: int|
                #[trigger] cargo_d_ok(cargo_modules(context.rel_path.rel@), d) && a.deep_view()
                    == cargo_file_args(cargo_modules(context.rel_path.rel@), d),
    {
        let ghost ms = cargo_modules(context.rel_path.rel@);

        let rel_noext = drop_extension(context.rel_str());
        let mut modules = split_slash_str(rel_noext.as_str());

        if modules.len() == 0 {
            let out: Vec<String> = Vec::new();
            proof {
                assert(cargo_d_ok(ms, 0));
                assert(out.deep_view() =~= cargo_file_args(ms, 0));
            }
            return Ok(out);
        }

        let last_i = modules.len() - 1;
        let trailing = str_eq(modules[last_i].as_str(), "main") || str_eq(
            modules[last_i].as_str(),
            "lib",
        ) || str_eq(modules[last_i].as_str(), "mod");
        if trailing {
            modules.pop();
        }
        proof {
            assert(modules.deep_view() =~= ms);
        }

        let mut args: Vec<String> = Vec::new();
        let ghost mut d: int = 0;
        let mut found = false;
        let mut i: usize = modules.len();
        while i > 1 && !found
            invariant
                !found ==> {
                    &&& modules.deep_view() == ms
                    &&& args@.len() == 0
                    &&& d == 0
                    &&& i <= ms.len()
                },
                found ==> {
                    &&& cargo_d_ok(ms, d)
                    &&& d >= 1
                    &&& args.deep_view() == cargo_package_args(ms, d)
                    &&& modules.deep_view() == ms.skip(d)
                },
            decreases i,
        {
            i -= 1;
            let prefix = vec_prefix_clone(&modules, i);
            let joined = join_with(&prefix, "/");
            let manifest = join_path_str(joined.as_str(), "Cargo.toml");
            let full = join_path_str(context.root().as_str(), manifest.as_str());
            if path_exists(full.as_str()) {
                args.push(String::from_str("--package"));
                args.push(modules[i - 1].clone());
                let tail = modules.split_off(i);
                modules = tail;
                found = true;
                proof {
                    d = i as int;
                    assert(args.deep_view() =~= cargo_package_args(ms, d));
                    assert(modules.deep_view() =~= ms.skip(d));
                }
            }
        }

        if modules.len() <= 1 {
            proof {
                assert(cargo_d_ok(ms, d));
                assert(args.deep_view() =~= cargo_file_args(ms, d));
            }
            return Ok(args);
        }

        if modules.len() == 2 && str_eq(modules[0].as_str(), "tests") {
            args.push(String::from_str("--test"));
            args.push(modules[1].clone());
            proof {
                assert(cargo_d_ok(ms, d));
                assert(args.deep_view() =~= cargo_file_args(ms, d));
            }
            return Ok(args);
        }

        let mut restv = vec_suffix_clone(&modules, 1);
        let ghost rv0 = restv.deep_view();
        restv.push(String::new());
        proof {
            assert(restv.deep_view() =~= rv0.push(Seq::<char>::empty()));
            if d == 0 {
                assert(ms.skip(0) =~= ms);
            }
            assert(restv.deep_view() =~= ms.skip(if d >= 0 {
                d
            } else {
                0
            }).skip(1).push(Seq::<char>::empty()));
        }
        let ns = join_with(&restv, "::");
        args.push(ns);
        proof {
            assert(cargo_d_ok(ms, d));
            assert(args.deep_view() =~= cargo_file_args(ms, d));
        }
        Ok(args)
    }

    /// Narrows the file-scope arguments to the one test at the cursor:
    /// the attribute found scanning backward fixes the spot, the function
    /// declaration found scanning forward names it, and the pair runs
    /// with `--exact`.
    pub fn build_line_position_args(&self, context: &Context, file_lines: &Vec<String>) -> (r:
        Result<ArgsList, AnytestError>)
        requires
            context.rel_path.wf(),
            context.line_nr matches Some(n) ==> n < usize::MAX,
        ensures
            context.line_nr is None ==> r == Err::<ArgsList, AnytestError>(
                AnytestError::MissingLineNumber,
            ),
            context.line_nr matches Some(line) ==> (line == 0 ==> r == Err::<
                ArgsList,
                AnytestError,
            >(AnytestError::InvalidLowerBound)),
            context.line_nr matches Some(line) ==> (line >= 1 && sel_ok(
                file_lines@.len() as int,
                line_back_range(line as int),
            ) ==> r is Ok),
            context.line_nr matches Some(line) ==> (line >= 1 && !sel_ok(
                file_lines@.len() as int,
                line_back_range(line as int),
            ) ==> r == Err::<ArgsList, AnytestError>(AnytestError::LineNotFound(seek_target(
                line_back_range(line as int),
            ) as usize))),
            r matches Ok(a) ==> exists|d: int|
                #[trigger] cargo_d_ok(cargo_modules(context.rel_path.rel@), d)
                    && cargo_line_result_ok(self, *context, file_lines.deep_view(), d, a.deep_view()),
    {
        let ghost ms = cargo_modules(context.rel_path.rel@);
        let mut args = match self.build_file_position_args(context) {
            Ok(a) => a,
            Err(e) => {
                return Err(e);
            },
        };
        let ghost d0 = choose|d: int|
            #[trigger] cargo_d_ok(ms, d) && args.deep_view() == cargo_file_args(ms, d);

        let nearest = match find_nearest_for(
            self.test_pattern.as_str(),
            self.namespace_pattern.as_str(),
            context,
            file_lines,
        ) {
            Ok(n) => n,
            Err(e) => {
                return Err(e);
            },
        };

        if !nearest.has_tests() {
            return Ok(args);
        }
        if !str_contains(nearest.tests[0].as_str(), "#[") {
            return Ok(args);
        }

        let cursor = match context.line_nr() {
            Some(c) => c,
            None => {
                return Ok(args);
            },
        };
        let attr_line = match nearest.line_nr() {
            Some(l) => l,
            None => {
                return Ok(args);
            },
        };
        if attr_line > cursor || attr_line < 1 {
            return Ok(args);
        }

        let fwd_range = match LRange::try_from_range(
            LineBound::Included(attr_line),
            LineBound::Included(cursor),
        ) {
            Ok(rg) => rg,
            Err(e) => {
                return Err(e);
            },
        };
        let mut fwd_patterns: Vec<NamedPattern> = Vec::new();
        fwd_patterns.push(NamedPattern::new(self.forward_test_pattern.as_str(), None));
        let no_namespaces: Vec<NamedPattern> = Vec::new();
        proof {
            assert(pats_view(fwd_patterns@) =~= seq![self.forward_test_pattern@]);
            assert(pats_view(no_namespaces@) =~= Seq::<Seq<char>>::empty());
            assert(fwd_range == cargo_fwd_range(attr_line as int, cursor as int));
        }
        let forward = match context.find_nearest(
            &fwd_patterns,
            &no_namespaces,
            file_lines,
            fwd_range,
        ) {
            Ok(n) => n,
            Err(e) => {
                return Err(e);
            },
        };

        let test_name: String = if nearest.namespaces.len() == 0 {
            if forward.tests.len() == 0 {
                return Ok(args);
            }
            forward.tests[0].clone()
        } else if forward.tests.len() == 0 {
            nearest.tests[0].clone()
        } else {
            let mut joined = nearest.namespaces[0].clone();
            joined.append("::");
            joined.append(forward.tests[0].as_str());
            joined
        };

        let ghost base = args.deep_view();
        let take_last = args.len() > 0 && !str_eq(args[0].as_str(), "--test");
        let file_namespace: String = if take_last {
            match args.pop() {
                Some(last) => last,
                None => String::new(),
            }
        } else {
            String::new()
        };

        let mut merged = file_namespace;
        merged.append(test_name.as_str());
        args.push(merged);
        args.push(String::from_str("--"));
        args.push(String::from_str("--exact"));

        proof {
            let name = test_name@;
            assert(name == cargo_test_name(
                nearest.tests.deep_view(),
                nearest.namespaces.deep_view(),
                forward.tests.deep_view(),
            ));
            if take_last {
                assert(args.deep_view() =~= base.drop_last().push(base.last() + name).push(
                    "--"@,
                ).push("--exact"@));
            } else {
                assert(args.deep_view() =~= base.push(name).push("--"@).push("--exact"@));
            }
            assert(args.deep_view() == cargo_line_shape(ms, d0, name));
        }
        Ok(args)
    }
}

} // verus!
