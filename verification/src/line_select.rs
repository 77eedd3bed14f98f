//! Selects the lines of a file that a [`LRange`] asks for, in the range's
//! own direction, pairing each line with its 1-based number.
//!
//! This is the functional core of line streaming: a file is a sequence of
//! lines, the range picks a window and an order, and the result is the
//! window zipped with the range's numbers — capped by the end of the file
//! for an unbounded range, exactly as a lazy reader zipped against the
//! number sequence would be.

use crate::errors::AnytestError;
use crate::line_range::LRange;
use crate::LineNr;
use vstd::prelude::*;

verus! {

/// The line the stream must reach before anything is yielded.
pub open spec fn seek_target(r: LRange) -> int {
    if r.step == 1 {
        r.start as int
    } else {
        r.start + 1
    }
}

/// Whether a file of `l` lines reaches the seek target at all.
pub open spec fn sel_ok(l: int, r: LRange) -> bool {
    seek_target(r) <= l + 1
}

/// How many lines the selection yields from a file of `l` lines.
pub open spec fn sel_count(l: int, r: LRange) -> int {
    if r.step == 1 {
        let cap = match r.end {
            Some(e) => if e <= l {
                e as int
            } else {
                l
            },
            None => l,
        };
        if cap - r.start + 1 > 0 {
            cap - r.start + 1
        } else {
            0
        }
    } else {
        let e = match r.end {
            Some(e) => e as int,
            None => 1,
        };
        if r.start - e + 1 > 0 {
            r.start - e + 1
        } else {
            0
        }
    }
}

/// The selected `(line, number)` pairs, in the range's direction.
pub open spec fn sel_seq(lines: Seq<Seq<char>>, r: LRange) -> Seq<(Seq<char>, int)> {
    Seq::new(
        sel_count(lines.len() as int, r) as nat,
        |i: int|
            if r.step == 1 {
                (lines[r.start + i - 1], r.start + i)
            } else {
                (lines[r.start - i - 1], r.start - i)
            },
    )
}

/// Yields the lines the range selects, each with its line number, walking
/// the file forward for an ascending range and backward for a descending
/// one.  Fails with `LineNotFound` when the seek target lies past the end
/// of the file.
pub fn select_lines(lines: &Vec<String>, r: &LRange) -> (res: Result<
    Vec<(String, LineNr)>,
    AnytestError,
>)
    requires
        r.wf(),
        r.directed(),
        r.start >= 1,
        r.step == -1 ==> r.start < usize::MAX,
    ensures
        match res {
            Ok(v) => {
                &&& sel_ok(lines@.len() as int, *r)
                &&& v@.len() == sel_count(lines@.len() as int, *r)
                &&& forall|i: int|
                    0 <= i < v@.len() ==> #[trigger] v@[i].0@ == sel_seq(lines.deep_view(), *r)[i].0
                        && v@[i].1 == sel_seq(lines.deep_view(), *r)[i].1
            },
            Err(e) => !sel_ok(lines@.len() as int, *r) && e == AnytestError::LineNotFound(
                seek_target(*r) as usize,
            ),
        },
{
    let l = lines.len();
    let target: LineNr = r.forward_to();
    if target - 1 > l {
        return Err(AnytestError::LineNotFound(target));
    }
    let mut out: Vec<(String, LineNr)> = Vec::new();
    if r.is_asc() {
        let cap: usize = match r.end {
            Some(e) => if e <= l {
                e
            } else {
                l
            },
            None => l,
        };
        let count: usize = if cap >= r.start {
            cap - r.start + 1
        } else {
            0
        };
        let mut i: usize = 0;
        while i < count
            invariant
                l == lines@.len(),
                count == sel_count(lines@.len() as int, *r),
                r.step == 1,
                r.start >= 1,
                count + r.start <= lines@.len() + 1,
                i <= count,
                out@.len() == i,
                forall|k: int|
                    0 <= k < i ==> #[trigger] out@[k].0@ == lines.deep_view()[r.start + k - 1]
                        && out@[k].1 == r.start + k,
            decreases count - i,
        {
            out.push((lines[r.start + i - 1].clone(), r.start + i));
            i += 1;
        }
    } else {
        let e: usize = match r.end {
            Some(e) => e,
            None => 1,
        };
        let count: usize = r.start - e + 1;
        let mut i: usize = 0;
        while i < count
            invariant
                l == lines@.len(),
                count == sel_count(lines@.len() as int, *r),
                r.step == -1,
                count >= 1,
                e >= 1,
                count == r.start - e + 1,
                r.start <= lines@.len(),
                i <= count,
                out@.len() == i,
                forall|k: int|
                    0 <= k < i ==> #[trigger] out@[k].0@ == lines.deep_view()[r.start - k - 1]
                        && out@[k].1 == r.start - k,
            decreases count - i,
        {
            out.push((lines[r.start - i - 1].clone(), r.start - i));
            i += 1;
        }
    }
    Ok(out)
}

/// Reading a file of `n` known lines with the full ascending range
/// `1 ..= n` yields exactly the file's lines in order, each paired with
/// its 1-based number.
pub proof fn lemma_stream_ascending_whole(lines: Seq<Seq<char>>, r: LRange)
    requires
        r.step == 1,
        r.start == 1,
        r.end matches Some(e) && e == lines.len(),
        lines.len() >= 1,
    ensures
        sel_seq(lines, r).len() == lines.len(),
        forall|i: int| 0 <= i < lines.len() ==> #[trigger] sel_seq(lines, r)[i] == (lines[i], i + 1),
{
}

/// Reading the same file with the full descending range `n ..= 1` yields
/// the same lines in exact reverse order, with matching numbers.
pub proof fn lemma_stream_descending_whole(lines: Seq<Seq<char>>, r: LRange)
    requires
        r.step == -1,
        r.start == lines.len(),
        r.end matches Some(e) && e == 1,
        lines.len() >= 1,
    ensures
        sel_seq(lines, r).len() == lines.len(),
        forall|i: int|
            0 <= i < lines.len() ==> #[trigger] sel_seq(lines, r)[i] == (
                lines[lines.len() - 1 - i],
                lines.len() - i,
            ),
{
}

} // verus!
