//! The nearest-test scan: classifies each streamed line as a test
//! declaration, a namespace declaration or neither, and folds an
//! acceptance state over the lines in the order they arrive (callers pass
//! them nearest-first, scanning backward from the cursor).
//!
//! The whole fold is a mathematical function of the pattern strings and
//! the numbered lines, so two scans of the same input are equal by
//! construction.

use crate::named_pattern::capture_of;
use crate::named_pattern::NamedPattern;
use crate::strutil::indent_of;
use crate::strutil::indent_width;
use crate::LineNr;
use vstd::prelude::*;

verus! {

/// The pattern strings of a pattern list.
pub open spec fn pats_view(ps: Seq<NamedPattern>) -> Seq<Seq<char>> {
    ps.map_values(|p: NamedPattern| p.pattern@)
}

/// The `(text, number)` view of a numbered-line list.
pub open spec fn numbered_view(v: Seq<(String, LineNr)>) -> Seq<(Seq<char>, int)> {
    v.map_values(|p: (String, LineNr)| (p.0@, p.1 as int))
}

/// The first capture among `pats`, in list order: first match wins.
pub open spec fn first_capture(pats: Seq<Seq<char>>, line: Seq<char>) -> Option<Seq<char>>
    decreases pats.len(),
{
    if pats.len() == 0 {
        None
    } else if capture_of(pats[0], line) is Some {
        capture_of(pats[0], line)
    } else {
        first_capture(pats.drop_first(), line)
    }
}

proof fn lemma_first_capture_skip(pats: Seq<Seq<char>>, line: Seq<char>, i: int)
    requires
        0 <= i <= pats.len(),
        forall|j: int| 0 <= j < i ==> #[trigger] capture_of(pats[j], line) is None,
    ensures
        first_capture(pats, line) == first_capture(pats.skip(i), line),
    decreases i,
{
    if i == 0 {
        assert(pats.skip(0) =~= pats);
    } else {
        assert(capture_of(pats[0], line) is None);
        lemma_first_capture_skip(pats.drop_first(), line, i - 1);
        assert(pats.drop_first().skip(i - 1) =~= pats.skip(i));
    }
}

/// Applies the patterns to one line, first match in list order winning.
pub fn find_first_capture(patterns: &Vec<NamedPattern>, line: &str) -> (r: Option<String>)
    ensures
        match r {
            Some(c) => first_capture(pats_view(patterns@), line@) == Some(c@),
            None => first_capture(pats_view(patterns@), line@) is None,
        },
{
    let n = patterns.len();
    let mut i: usize = 0;
    while i < n
        invariant
            n == patterns@.len(),
            i <= n,
            forall|j: int|
                0 <= j < i ==> #[trigger] capture_of(pats_view(patterns@)[j], line@) is None,
        decreases n - i,
    {
        match patterns[i].find(line) {
            Some(found) => {
                proof {
                    lemma_first_capture_skip(pats_view(patterns@), line@, i as int);
                }
                return Some(found.0);
            },
            None => {
            },
        }
        i += 1;
    }
    proof {
        lemma_first_capture_skip(pats_view(patterns@), line@, n as int);
    }
    None
}

/// The locator's running state while scanning.
pub struct ScanState {
    /// Accepted test captures, in the order encountered.
    pub tests: Seq<Seq<char>>,
    /// Accepted namespace captures, in the order encountered
    /// (reverse-file order; reversed once the scan is done).
    pub namespaces: Seq<Seq<char>>,
    /// The line of the first accepted test match, set once.
    pub test_line: Option<int>,
    /// The line of the most recent accepted namespace match.
    pub last_ns_line: Option<int>,
    /// The indentation of the most recent accepted match of either kind.
    pub last_indent: Option<int>,
}

/// The state before any line has been seen.
pub open spec fn scan_init() -> ScanState {
    ScanState {
        tests: Seq::empty(),
        namespaces: Seq::empty(),
        test_line: None,
        last_ns_line: None,
        last_indent: None,
    }
}

/// One step of the scan.
///
/// A line matching a test pattern is accepted when nothing has been
/// accepted yet; when no test has been accepted yet, the match stands
/// shallower than the last accepted match and a namespace was accepted on
/// a line after this one (accepting it then discards namespaces that
/// belong to that sibling scope); or when it is an adjacent sibling of
/// the accepted test: same indentation as the last accepted match, with
/// no namespace accepted since.  Sibling captures are appended while the
/// reported line stays at the first (nearest) acceptance.  A line
/// matching a namespace pattern is accepted when nothing has been
/// accepted yet or it stands strictly shallower than the last accepted
/// match.  A line matching a test pattern is never counted as a
/// namespace.
pub open spec fn scan_step(
    tp: Seq<Seq<char>>,
    np: Seq<Seq<char>>,
    s: ScanState,
    line: Seq<char>,
    nr: int,
) -> ScanState {
    let tm = first_capture(tp, line);
    let nm = first_capture(np, line);
    let ind = indent_of(line);
    match tm {
        Some(cap) => {
            let accept = s.last_indent is None || (s.test_line is None && s.last_indent is Some
                && s.last_indent.unwrap() > ind && s.last_ns_line is Some
                && s.last_ns_line.unwrap() > nr) || (s.test_line is Some && s.last_ns_line is None
                && s.last_indent is Some && s.last_indent.unwrap() == ind);
            if accept {
                let cleared = s.last_ns_line is Some && s.last_ns_line.unwrap() > nr;
                ScanState {
                    tests: s.tests.push(cap),
                    namespaces: if cleared {
                        Seq::empty()
                    } else {
                        s.namespaces
                    },
                    test_line: if s.test_line is Some {
                        s.test_line
                    } else {
                        Some(nr)
                    },
                    last_ns_line: if cleared {
                        None
                    } else {
                        s.last_ns_line
                    },
                    last_indent: Some(ind),
                }
            } else {
                s
            }
        },
        None => match nm {
            Some(cap) => {
                let accept = s.last_indent is None || (s.last_indent is Some && ind
                    < s.last_indent.unwrap());
                if accept {
                    ScanState {
                        tests: s.tests,
                        namespaces: s.namespaces.push(cap),
                        test_line: s.test_line,
                        last_ns_line: Some(nr),
                        last_indent: Some(ind),
                    }
                } else {
                    s
                }
            },
            None => s,
        },
    }
}

/// The state after scanning `lines` in order, starting from nothing.
pub open spec fn scan(tp: Seq<Seq<char>>, np: Seq<Seq<char>>, lines: Seq<(Seq<char>, int)>) -> ScanState
    decreases lines.len(),
{
    if lines.len() == 0 {
        scan_init()
    } else {
        scan_step(tp, np, scan(tp, np, lines.drop_last()), lines.last().0, lines.last().1)
    }
}

/// A scan that has accepted a test remembers its line: `tests` is
/// non-empty exactly when `test_line` is set.
pub proof fn lemma_scan_tests_have_line(
    tp: Seq<Seq<char>>,
    np: Seq<Seq<char>>,
    lines: Seq<(Seq<char>, int)>,
)
    ensures
        scan(tp, np, lines).tests.len() > 0 <==> scan(tp, np, lines).test_line is Some,
    decreases lines.len(),
{
    if lines.len() > 0 {
        lemma_scan_tests_have_line(tp, np, lines.drop_last());
    }
}

/// Adjacent sibling test declarations at one indentation are all
/// captured, in the order met (nearest first, since callers scan
/// backward), while the reported line stays at the first one met and no
/// namespace is recorded.
pub proof fn lemma_scan_captures_siblings(
    tp: Seq<Seq<char>>,
    np: Seq<Seq<char>>,
    lines: Seq<(Seq<char>, int)>,
)
    requires
        lines.len() > 0,
        forall|i: int| 0 <= i < lines.len() ==> #[trigger] first_capture(tp, lines[i].0) is Some,
        forall|i: int|
            0 <= i < lines.len() ==> #[trigger] indent_of(lines[i].0) == indent_of(lines[0].0),
    ensures
        scan(tp, np, lines).tests.len() == lines.len(),
        forall|i: int|
            0 <= i < lines.len() ==> #[trigger] scan(tp, np, lines).tests[i] == first_capture(
                tp,
                lines[i].0,
            ).unwrap(),
        scan(tp, np, lines).test_line == Some(lines[0].1),
        scan(tp, np, lines).namespaces == Seq::<Seq<char>>::empty(),
        scan(tp, np, lines).last_ns_line is None,
        scan(tp, np, lines).last_indent == Some(indent_of(lines[0].0)),
    decreases lines.len(),
{
    let dl = lines.drop_last();
    assert(forall|i: int| 0 <= i < dl.len() ==> dl[i] == lines[i]);
    if lines.len() > 1 {
        lemma_scan_captures_siblings(tp, np, dl);
    } else {
        assert(scan(tp, np, dl) == scan_init());
    }
    let s0 = scan(tp, np, dl);
    let last = lines.last();
    assert(scan(tp, np, lines) == scan_step(tp, np, s0, last.0, last.1));
    assert(first_capture(tp, last.0) is Some);
    assert(indent_of(last.0) == indent_of(lines[0].0));
    assert(scan(tp, np, lines).tests == s0.tests.push(first_capture(tp, last.0).unwrap()));
    assert forall|i: int| 0 <= i < lines.len() implies #[trigger] scan(tp, np, lines).tests[i]
        == first_capture(tp, lines[i].0).unwrap() by {
        if i < lines.len() - 1 {
            assert(dl[i] == lines[i]);
            assert(s0.tests[i] == first_capture(tp, dl[i].0).unwrap());
        }
    }
}

/// The view a `LineNr` option presents to the scan state.
pub open spec fn opt_line_view(o: Option<LineNr>) -> Option<int> {
    match o {
        Some(n) => Some(n as int),
        None => None,
    }
}

/// Runs the scan over the numbered lines, in the order given.
/// Returns the accepted test captures, the accepted namespace captures in
/// the order encountered, and the line of the first accepted test.
pub fn scan_nearest(
    test_patterns: &Vec<NamedPattern>,
    namespace_patterns: &Vec<NamedPattern>,
    numbered: &Vec<(String, LineNr)>,
) -> (r: (Vec<String>, Vec<String>, Option<LineNr>))
    ensures
        ({
            let s = scan(
                pats_view(test_patterns@),
                pats_view(namespace_patterns@),
                numbered_view(numbered@),
            );
            &&& r.0.deep_view() == s.tests
            &&& r.1.deep_view() == s.namespaces.reverse()
            &&& opt_line_view(r.2) == s.test_line
        }),
{
    let ghost tp = pats_view(test_patterns@);
    let ghost np = pats_view(namespace_patterns@);
    let mut tests: Vec<String> = Vec::new();
    let mut namespaces: Vec<String> = Vec::new();
    let mut test_line: Option<LineNr> = None;
    let mut last_ns_line: Option<LineNr> = None;
    let mut last_indent: Option<LineNr> = None;

    let n = numbered.len();
    let mut i: usize = 0;
    while i < n
        invariant
            n == numbered@.len(),
            i <= n,
            tp == pats_view(test_patterns@),
            np == pats_view(namespace_patterns@),
            ({
                let s = scan(tp, np, numbered_view(numbered@).take(i as int));
                &&& tests.deep_view() == s.tests
                &&& namespaces.deep_view() == s.namespaces
                &&& opt_line_view(test_line) == s.test_line
                &&& opt_line_view(last_ns_line) == s.last_ns_line
                &&& opt_line_view(last_indent) == s.last_indent
            }),
        decreases n - i,
    {
        let ghost pre = scan(tp, np, numbered_view(numbered@).take(i as int));
        let line: &String = &numbered[i].0;
        let nr: LineNr = numbered[i].1;
        let tm = find_first_capture(test_patterns, line.as_str());
        let ind = indent_width(line.as_str());

        match tm {
            Some(cap) => {
                let accept: bool = match last_indent {
                    None => true,
                    Some(li) => (test_line.is_none() && li > ind && (match last_ns_line {
                        Some(nl) => nl > nr,
                        None => false,
                    })) || (test_line.is_some() && last_ns_line.is_none() && li == ind),
                };
                if accept {
                    let clear: bool = match last_ns_line {
                        Some(nl) => nl > nr,
                        None => false,
                    };
                    if clear {
                        namespaces = Vec::new();
                        last_ns_line = None;
                    }
                    tests.push(cap);
                    last_indent = Some(ind);
                    if test_line.is_none() {
                        test_line = Some(nr);
                    }
                }
            },
            None => {
                let nm = find_first_capture(namespace_patterns, line.as_str());
                match nm {
                    Some(cap) => {
                        let accept: bool = match last_indent {
                            None => true,
                            Some(li) => ind < li,
                        };
                        if accept {
                            namespaces.push(cap);
                            last_indent = Some(ind);
                            last_ns_line = Some(nr);
                        }
                    },
                    None => {
                    },
                }
            },
        }

        proof {
            let lv = numbered_view(numbered@);
            assert(lv.take(i + 1).drop_last() =~= lv.take(i as int));
            assert(lv.take(i + 1).last() == lv[i as int]);
            assert(scan(tp, np, lv.take(i + 1)) == scan_step(tp, np, pre, lv[i as int].0, lv[i as int].1));
        }
        i += 1;
    }

    proof {
        assert(numbered_view(numbered@).take(n as int) =~= numbered_view(numbered@));
    }

    // outer→inner order: the scan met the namespaces inner-first
    let mut rev_ns: Vec<String> = Vec::new();
    let mut k = namespaces.len();
    while k > 0
        invariant
            k <= namespaces@.len(),
            rev_ns@.len() == namespaces@.len() - k,
            forall|j: int|
                0 <= j < rev_ns@.len() ==> #[trigger] rev_ns.deep_view()[j]
                    == namespaces.deep_view()[namespaces@.len() - 1 - j],
        decreases k,
    {
        k -= 1;
        let ghost old_dv = rev_ns.deep_view();
        rev_ns.push(namespaces[k].clone());
        proof {
            assert(rev_ns.deep_view() =~= old_dv.push(namespaces.deep_view()[k as int]));
        }
    }
    proof {
        assert(rev_ns.deep_view() =~= scan(
            pats_view(test_patterns@),
            pats_view(namespace_patterns@),
            numbered_view(numbered@),
        ).namespaces.reverse());
    }

    (tests, rev_ns, test_line)
}

} // verus!
