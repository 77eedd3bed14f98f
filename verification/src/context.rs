//! The per-invocation context: the resolved path, the optional cursor
//! line, the requested scope — and the nearest-test search over a file's
//! lines.

use crate::errors::AnytestError;
use crate::line_range::LRange;
use crate::line_select::sel_ok;
use crate::line_select::sel_seq;
use crate::line_select::seek_target;
use crate::line_select::select_lines;
use crate::locator::opt_line_view;
use crate::locator::pats_view;
use crate::locator::scan;
use crate::locator::scan_nearest;
use crate::locator::lemma_scan_tests_have_line;
use crate::locator::numbered_view;
use crate::named_pattern::NamedPattern;
use crate::rel_path::resolved_under;
use crate::rel_path::RelPath;
use crate::strutil::dec_str;
use crate::strutil::is_abs_path;
use crate::strutil::join_path;
use crate::strutil::strip_path;
use crate::strutil::usize_to_string;
use crate::LineNr;
use vstd::prelude::*;

verus! {

/// The requested breadth of a run: the whole suite, one file, or the test
/// at one line.
#[derive(Clone, Debug, PartialEq, Eq, Structural)]
pub enum Scope {
    Suite,
    File,
    Line,
}

/// What the nearest-test search found: the accepted test captures, the
/// enclosing namespace chain outer→inner, and the line of the first
/// accepted test.
#[derive(Debug)]
pub struct Nearest {
    /// Accepted test captures, nearest first.
    pub tests: Vec<String>,
    /// Enclosing namespaces, outer→inner.
    pub namespaces: Vec<String>,
    /// The line at which the first test match occurred.
    pub line_nr: Option<LineNr>,
}

impl Nearest {
    pub fn tests(&self) -> (r: &Vec<String>)
        ensures
            r == self.tests,
    {
        &self.tests
    }

    pub fn namespaces(&self) -> (r: &Vec<String>)
        ensures
            r == self.namespaces,
    {
        &self.namespaces
    }

    pub fn line_nr(&self) -> (r: Option<LineNr>)
        ensures
            r == self.line_nr,
    {
        self.line_nr
    }

    pub fn has_tests(&self) -> (r: bool)
        ensures
            r == (self.tests@.len() > 0),
    {
        self.tests.len() > 0
    }
}

/// What the locator yields on given patterns and numbered lines: the
/// tests in the order accepted, the namespaces outer→inner, and the line
/// of the first accepted test.
pub open spec fn nearest_spec(
    tp: Seq<Seq<char>>,
    np: Seq<Seq<char>>,
    lines: Seq<(Seq<char>, int)>,
) -> (Seq<Seq<char>>, Seq<Seq<char>>, Option<int>) {
    let s = scan(tp, np, lines);
    (s.tests, s.namespaces.reverse(), s.test_line)
}

/// The locator is a function of its inputs: two results drawn from the
/// same patterns and the same numbered lines agree in every component —
/// no hidden state survives a call.
pub proof fn lemma_find_nearest_idempotent(
    tp: Seq<Seq<char>>,
    np: Seq<Seq<char>>,
    lines: Seq<(Seq<char>, int)>,
    a: Nearest,
    b: Nearest,
)
    requires
        a.tests.deep_view() == nearest_spec(tp, np, lines).0,
        a.namespaces.deep_view() == nearest_spec(tp, np, lines).1,
        opt_line_view(a.line_nr) == nearest_spec(tp, np, lines).2,
        b.tests.deep_view() == nearest_spec(tp, np, lines).0,
        b.namespaces.deep_view() == nearest_spec(tp, np, lines).1,
        opt_line_view(b.line_nr) == nearest_spec(tp, np, lines).2,
    ensures
        a.tests.deep_view() == b.tests.deep_view(),
        a.namespaces.deep_view() == b.namespaces.deep_view(),
        a.line_nr == b.line_nr,
{
    match (a.line_nr, b.line_nr) {
        (Some(x), Some(y)) => {
            assert(opt_line_view(a.line_nr) == Some(x as int));
            assert(opt_line_view(b.line_nr) == Some(y as int));
        },
        _ => {},
    }
}

/// A resolved location: the validated path, the optional cursor line, and
/// the scope the caller asked for.
#[derive(Debug)]
pub struct Context {
    /// The validated path triple.
    pub rel_path: RelPath,
    /// The cursor line, where one was given.
    pub line_nr: Option<LineNr>,
    /// The requested scope.
    pub scope: Scope,
}

impl Context {
    /// Resolves the location and fixes the scope: an explicit scope wins;
    /// otherwise a present line number means `Line` and an absent one
    /// means `File`.
    pub fn new(
        root: Option<&str>,
        path: &str,
        line_nr: Option<LineNr>,
        scope: Option<Scope>,
    ) -> (r: Result<Self, AnytestError>)
        ensures
            r matches Ok(c) ==> c.rel_path.wf(),
            r matches Ok(c) ==> c.rel_path.path@ == join_path(c.rel_path.root@, c.rel_path.rel@),
            r matches Ok(c) ==> c.line_nr == line_nr,
            r matches Ok(c) ==> c.scope == match scope {
                Some(s) => s,
                None => if line_nr is Some {
                    Scope::Line
                } else {
                    Scope::File
                },
            },
            r matches Ok(c) ==> (root matches Some(rt) ==> (is_abs_path(rt@) ==> c.rel_path.root@
                == rt@)),
            r matches Ok(c) ==> (is_abs_path(path@) ==> c.rel_path.path@ == path@),
            r matches Ok(c) ==> (root matches Some(rt) ==> (is_abs_path(rt@) && !is_abs_path(path@)
                ==> c.rel_path.path@ == join_path(rt@, path@) && c.rel_path.rel@ == path@)),
            r matches Ok(c) ==> (root matches Some(rt) ==> (!is_abs_path(rt@) && !is_abs_path(
                path@,
            ) ==> c.rel_path.rel@ == match strip_path(path@, rt@) {
                Some(s) => s,
                None => path@,
            })),
            r matches Err(e) ==> (e == AnytestError::InvalidRoot || e == AnytestError::PathNotFound
                || e == AnytestError::PathEscapesRoot),
            r matches Err(e) ==> (root matches Some(rt) ==> (is_abs_path(rt@) ==> (e
                == AnytestError::PathEscapesRoot ==> strip_path(
                resolved_under(rt@, path@),
                rt@,
            ) is None))),
    {
        let rel_path = match RelPath::new(root, path) {
            Ok(rp) => rp,
            Err(e) => {
                return Err(e);
            },
        };
        let scope = if let Some(s) = scope {
            s
        } else if line_nr.is_some() {
            Scope::Line
        } else {
            Scope::File
        };
        Ok(Self { rel_path, line_nr, scope })
    }

    pub fn root(&self) -> (r: &String)
        ensures
            r == self.rel_path.root,
    {
        self.rel_path.root()
    }

    pub fn path(&self) -> (r: &String)
        ensures
            r == self.rel_path.path,
    {
        self.rel_path.path()
    }

    pub fn rel(&self) -> (r: &String)
        ensures
            r == self.rel_path.rel,
    {
        self.rel_path.rel()
    }

    pub fn rel_str(&self) -> (r: &str)
        ensures
            r@ == self.rel_path.rel@,
    {
        self.rel_path.rel_str()
    }

    pub fn line_nr(&self) -> (r: Option<LineNr>)
        ensures
            r == self.line_nr,
    {
        self.line_nr
    }

    /// The cursor line, defaulting to line 1.
    pub fn line_nr_or_default(&self) -> (r: LineNr)
        ensures
            r == match self.line_nr {
                Some(n) => n,
                None => 1 as LineNr,
            },
    {
        match self.line_nr {
            Some(n) => n,
            None => 1,
        }
    }

    /// The `relative:line` form of this context.
    pub open spec fn rel_full_view(&self) -> Seq<char> {
        self.rel_path.rel@ + seq![':'] + dec_str(
            match self.line_nr {
                Some(n) => n as int,
                None => 1,
            },
        )
    }

    /// The root-relative path with the cursor line appended, as
    /// `relative:line`.
    pub fn rel_full(&self) -> (r: String)
        ensures
            r@ == self.rel_full_view(),
    {
        let mut s = self.rel_path.rel.clone();
        s.append(":");
        let nr = usize_to_string(self.line_nr_or_default());
        s.append(nr.as_str());
        proof {
            reveal_strlit(":");
            assert(s@ =~= self.rel_path.rel@ + seq![':'] + dec_str(
                match self.line_nr {
                    Some(n) => n as int,
                    None => 1,
                },
            ));
        }
        s
    }

    pub fn scope(&self) -> (r: &Scope)
        ensures
            r == self.scope,
    {
        &self.scope
    }

    /// Scans the selected window of `file_lines` in the range's direction
    /// and accumulates the nearest test and its enclosing namespaces.
    /// Fails with `EmptyPatternSet` when no test pattern was supplied, and
    /// with `LineNotFound` when the range starts past the end of the file.
    pub fn find_nearest(
        &self,
        test_patterns: &Vec<NamedPattern>,
        namespace_patterns: &Vec<NamedPattern>,
        file_lines: &Vec<String>,
        range: LRange,
    ) -> (r: Result<Nearest, AnytestError>)
        requires
            range.wf(),
            range.directed(),
            range.start >= 1,
            range.step == -1 ==> range.start < usize::MAX,
        ensures
            r == Err::<Nearest, AnytestError>(AnytestError::EmptyPatternSet) <==> test_patterns@
                .len() == 0,
            test_patterns@.len() > 0 ==> match r {
                Ok(n) => {
                    let sel = sel_seq(file_lines.deep_view(), range);
                    &&& sel_ok(file_lines@.len() as int, range)
                    &&& n.tests.deep_view() == nearest_spec(
                        pats_view(test_patterns@),
                        pats_view(namespace_patterns@),
                        sel,
                    ).0
                    &&& n.namespaces.deep_view() == nearest_spec(
                        pats_view(test_patterns@),
                        pats_view(namespace_patterns@),
                        sel,
                    ).1
                    &&& opt_line_view(n.line_nr) == nearest_spec(
                        pats_view(test_patterns@),
                        pats_view(namespace_patterns@),
                        sel,
                    ).2
                    &&& n.tests@.len() > 0 ==> n.line_nr is Some
                },
                Err(e) => !sel_ok(file_lines@.len() as int, range) && e
                    == AnytestError::LineNotFound(seek_target(range) as usize),
            },
    {
        if test_patterns.len() == 0 {
            return Err(AnytestError::EmptyPatternSet);
        }

        let numbered = match select_lines(file_lines, &range) {
            Ok(v) => v,
            Err(e) => {
                return Err(e);
            },
        };

        proof {
            assert(numbered_view(numbered@) =~= sel_seq(file_lines.deep_view(), range));
        }

        let (tests, namespaces, line_nr) = scan_nearest(
            test_patterns,
            namespace_patterns,
            &numbered,
        );

        proof {
            lemma_scan_tests_have_line(
                pats_view(test_patterns@),
                pats_view(namespace_patterns@),
                numbered_view(numbered@),
            );
        }

        Ok(Nearest { tests, namespaces, line_nr })
    }

    /// Resolves another path against this context's root, or `None` when
    /// it does not exist there.
    pub fn find_file(&self, rel_path: &str) -> (r: Option<RelPath>)
        requires
            self.rel_path.wf(),
        ensures
            r matches Some(rp) ==> rp.wf() && rp.root@ == self.rel_path.root@,
            r matches Some(rp) ==> (is_abs_path(rel_path@) ==> rp.path@ == rel_path@),
            r matches Some(rp) ==> (!is_abs_path(rel_path@) ==> rp.path@ == join_path(
                self.rel_path.root@,
                rel_path@,
            ) && rp.rel@ == rel_path@),
    {
        match self.rel_path.file(rel_path) {
            Ok(rp) => Some(rp),
            Err(_) => None,
        }
    }
}

} // verus!
