//! A direction-aware, 1-based range of line numbers.
//!
//! A range steps `+1` (ascending) or `-1` (descending) from `start`,
//! inclusive, and stops one step past `end` when an `end` is present.  An
//! unbounded range is always ascending and is capped in practice by the end
//! of the file it is zipped against.

use crate::errors::AnytestError;
use crate::LineNr;
use vstd::prelude::*;

verus! {

/// One end of a requested line interval.
#[derive(Clone, Copy, Debug, PartialEq, Eq, Structural)]
pub enum LineBound {
    /// The bound itself belongs to the range.
    Included(LineNr),
    /// The neighbour of the bound, towards the other end, belongs to the
    /// range.  As a start bound it is treated as included.
    Excluded(LineNr),
    /// No bound: line 1 as a start, end of file as an end.
    Unbounded,
}

/// The start line a `LineBound` denotes.
pub open spec fn start_of_bound(b: LineBound) -> int {
    match b {
        LineBound::Included(s) => s as int,
        LineBound::Excluded(s) => s as int,
        LineBound::Unbounded => 1,
    }
}

/// The end line a `LineBound` denotes for a range starting at `start`, or
/// `None` for an unbounded range.  An excluded end is pulled one step
/// towards `start`, whichever direction the range runs in.
pub open spec fn end_of_bound(start: int, b: LineBound) -> Option<int> {
    match b {
        LineBound::Included(e) => Some(e as int),
        LineBound::Excluded(e) => if start <= e {
            Some(e - 1)
        } else {
            Some(e + 1)
        },
        LineBound::Unbounded => None,
    }
}

/// A line numbers range. 1-based.
#[derive(Debug)]
pub struct LRange {
    /// The next line to yield.
    pub start: LineNr,
    /// `1` for an ascending range, `-1` for a descending one.
    pub step: isize,
    /// The last line to yield, or `None` for never stopping.
    pub end: Option<LineNr>,
}

impl LRange {
    /// A range's step is one line up or one line down, and a present end
    /// leaves room for the one-past-`end` cursor the iteration uses.
    pub open spec fn wf(self) -> bool {
        &&& (self.step == 1 || self.step == -1)
        &&& match self.end {
            Some(e) => 1 <= e < usize::MAX,
            None => self.step == 1,
        }
    }

    /// The direction never points away from `end`: a descending range has
    /// `start >= end`, an ascending bounded one has `start <= end`.
    pub open spec fn directed(self) -> bool {
        match self.end {
            Some(e) => if self.step == 1 {
                self.start <= e
            } else {
                self.start >= e
            },
            None => self.step == 1,
        }
    }

    pub fn new(start: LineNr, step: isize, end: Option<LineNr>) -> (r: Result<Self, AnytestError>)
        ensures
            r is Ok <==> (start >= 1 && (end matches Some(e) ==> e >= 1)),
            r matches Ok(lr) ==> lr == (LRange { start, step, end }),
            r matches Err(e) ==> (e == AnytestError::InvalidLowerBound <==> start < 1),
            r matches Err(e) ==> (e == AnytestError::InvalidUpperBound <==> start >= 1),
    {
        if start < 1 {
            return Err(AnytestError::InvalidLowerBound);
        }
        if let Some(e) = end {
            if e < 1 {
                return Err(AnytestError::InvalidUpperBound);
            }
        }
        Ok(Self { start, step, end })
    }

    /// Derives a range from a pair of interval bounds: an unbounded start
    /// means line 1, an unbounded end means no end, an excluded end is
    /// pulled one step towards the start.  The direction is descending
    /// exactly when an end is present and lies before the start.
    pub fn try_from_range(start_bound: LineBound, end_bound: LineBound) -> (r: Result<
        Self,
        AnytestError,
    >)
        ensures
            r is Ok <==> (start_of_bound(start_bound) >= 1 && (end_of_bound(
                start_of_bound(start_bound),
                end_bound,
            ) matches Some(e) ==> e >= 1)),
            r matches Ok(lr) ==> {
                &&& lr.start == start_of_bound(start_bound)
                &&& lr.end == match end_of_bound(start_of_bound(start_bound), end_bound) {
                    Some(e) => Some(e as usize),
                    None => None::<usize>,
                }
                &&& lr.step == if lr.end matches Some(e) && lr.start > e {
                    -1 as isize
                } else {
                    1 as isize
                }
            },
            r matches Err(e) ==> (e == AnytestError::InvalidLowerBound <==> start_of_bound(
                start_bound,
            ) < 1),
            r matches Err(e) ==> (e == AnytestError::InvalidUpperBound <==> start_of_bound(
                start_bound,
            ) >= 1),
    {
        let start: LineNr = match start_bound {
            LineBound::Included(s) => s,
            LineBound::Excluded(s) => s,
            LineBound::Unbounded => 1,
        };

        if start < 1 {
            return Err(AnytestError::InvalidLowerBound);
        }

        let end: Option<LineNr> = match end_bound {
            LineBound::Included(e) => Some(e),
            LineBound::Excluded(e) => if start <= e {
                Some(e - 1)
            } else {
                Some(e + 1)
            },
            LineBound::Unbounded => None,
        };

        let mut step: isize = 1;
        if let Some(e) = end {
            if e < 1 {
                return Err(AnytestError::InvalidUpperBound);
            }
            if start > e {
                step = -1;
            }
        }

        Ok(Self { start, step, end })
    }

    pub fn start(&self) -> (r: LineNr)
        ensures
            r == self.start,
    {
        self.start
    }

    /// The line the streaming layer must advance to before yielding:
    /// the start itself when ascending, one line past it when descending.
    pub fn forward_to(&self) -> (r: LineNr)
        requires
            self.step <= 0 ==> self.start < usize::MAX,
        ensures
            r == if self.step > 0 {
                self.start as int
            } else {
                self.start + 1
            },
    {
        if self.is_asc() {
            self.start()
        } else {
            self.start() + 1
        }
    }

    pub fn is_asc(&self) -> (r: bool)
        ensures
            r == (self.step > 0),
    {
        self.step > 0
    }

    pub fn is_desc(&self) -> (r: bool)
        ensures
            r == (self.step < 0),
    {
        self.step < 0
    }

    /// The numbers a bounded range yields, in order.
    pub open spec fn bounded_yields(self) -> Seq<int>
        recommends
            self.end is Some,
    {
        match self.end {
            Some(e) => if self.step == 1 {
                asc_seq(self.start as int, e as int)
            } else {
                desc_seq(self.start as int, e as int)
            },
            None => Seq::empty(),
        }
    }

    /// Yields the next line number and steps once, or reports exhaustion:
    /// one step past `end`, below line 0, or past the platform's signed
    /// range.
    pub fn next(&mut self) -> (r: Option<LineNr>)
        requires
            old(self).wf(),
        ensures
            final(self).wf(),
            final(self).step == old(self).step,
            final(self).end == old(self).end,
            match r {
                Some(n) => {
                    &&& n == old(self).start
                    &&& old(self).start <= isize::MAX as usize
                    &&& final(self).start == if old(self).step == 1 {
                        old(self).start + 1
                    } else {
                        old(self).start - 1
                    }
                    &&& old(self).step == 1 ==> (old(self).end matches Some(e) ==> old(self).start
                        <= e)
                    &&& old(self).step == -1 ==> old(self).start >= 1 && (old(
                        self,
                    ).end matches Some(e) ==> old(self).start >= e)
                },
                None => {
                    &&& *final(self) == *old(self)
                    &&& (old(self).start > isize::MAX as usize || (old(self).step == 1 && old(
                        self,
                    ).end is Some && old(self).start > old(self).end.unwrap()) || (old(self).step
                        == -1 && (old(self).start == 0 || (old(self).end is Some && old(
                        self,
                    ).start < old(self).end.unwrap()))))
                },
            },
    {
        if self.start > (isize::MAX as usize) {
            return None;
        }
        if self.step >= 1 {
            if let Some(e) = self.end {
                if self.start > e {
                    return None;
                }
            }
            let cur = self.start;
            self.start = cur + 1;
            Some(cur)
        } else {
            if self.start == 0 {
                return None;
            }
            if let Some(e) = self.end {
                if self.start < e {
                    return None;
                }
            }
            let cur = self.start;
            self.start = cur - 1;
            Some(cur)
        }
    }

    /// Drains a bounded range into the vector of the numbers it yields.
    pub fn to_vec(&mut self) -> (r: Vec<LineNr>)
        requires
            old(self).wf(),
            old(self).directed(),
            old(self).end is Some,
            old(self).end.unwrap() <= isize::MAX as usize,
            old(self).start <= isize::MAX as usize,
        ensures
            r@.len() == old(self).bounded_yields().len(),
            forall|i: int|
                0 <= i < r@.len() ==> #[trigger] r@[i] as int == old(self).bounded_yields()[i],
    {
        let ghost total = old(self).bounded_yields();
        proof {
            if old(self).step == 1 {
                lemma_asc_seq_shape(old(self).start as int, old(self).end.unwrap() as int);
            } else {
                lemma_desc_seq_shape(old(self).start as int, old(self).end.unwrap() as int);
            }
        }
        let mut out: Vec<LineNr> = Vec::new();
        loop
            invariant
                self.wf(),
                self.step == old(self).step,
                self.end == old(self).end,
                self.step == 1 ==> old(self).start <= self.start <= old(self).end.unwrap() + 1
                    && out@.len() == self.start - old(self).start,
                self.step == -1 ==> old(self).end.unwrap() - 1 <= self.start <= old(self).start
                    && out@.len() == old(self).start - self.start,
                forall|j: int| 0 <= j < out@.len() ==> #[trigger] out@[j] as int == total[j],
                total == old(self).bounded_yields(),
                total.len() == if old(self).start <= old(self).end.unwrap() {
                    old(self).end.unwrap() + 1 - old(self).start
                } else {
                    old(self).start + 1 - old(self).end.unwrap()
                },
                forall|k: int|
                    0 <= k < total.len() ==> #[trigger] total[k] == if old(self).step == 1 {
                        old(self).start + k
                    } else {
                        old(self).start - k
                    },
                old(self).directed(),
                old(self).end is Some,
                old(self).end.unwrap() <= isize::MAX as usize,
                old(self).start <= isize::MAX as usize,
            ensures
                out@.len() == total.len(),
                forall|j: int| 0 <= j < out@.len() ==> #[trigger] out@[j] as int == total[j],
                total == old(self).bounded_yields(),
            decreases (if self.step == 1 {
                old(self).end.unwrap() + 1 - self.start
            } else {
                self.start + 1 - old(self).end.unwrap()
            }),
        {
            match self.next() {
                Some(n) => {
                    out.push(n);
                },
                None => {
                    break ;
                },
            }
        }
        out
    }
}

/// The numbers from `start` up to `end`, inclusive.
pub open spec fn asc_seq(start: int, end: int) -> Seq<int>
    decreases end - start + 1,
{
    if start > end {
        Seq::empty()
    } else {
        seq![start] + asc_seq(start + 1, end)
    }
}

/// The numbers from `start` down to `end`, inclusive.
pub open spec fn desc_seq(start: int, end: int) -> Seq<int>
    decreases start - end + 1,
{
    if start < end {
        Seq::empty()
    } else {
        seq![start] + desc_seq(start - 1, end)
    }
}

/// `asc_seq(start, end)` steps up by one from `start` and has
/// `end - start + 1` entries.
pub proof fn lemma_asc_seq_shape(start: int, end: int)
    ensures
        asc_seq(start, end).len() == if start <= end {
            end - start + 1
        } else {
            0
        },
        forall|k: int|
            0 <= k < asc_seq(start, end).len() ==> #[trigger] asc_seq(start, end)[k] == start + k,
    decreases end - start + 1,
{
    if start <= end {
        lemma_asc_seq_shape(start + 1, end);
    }
}

/// `desc_seq(start, end)` steps down by one from `start` and has
/// `start - end + 1` entries.
pub proof fn lemma_desc_seq_shape(start: int, end: int)
    ensures
        desc_seq(start, end).len() == if start >= end {
            start - end + 1
        } else {
            0
        },
        forall|k: int|
            0 <= k < desc_seq(start, end).len() ==> #[trigger] desc_seq(start, end)[k] == start - k,
    decreases start - end + 1,
{
    if start >= end {
        lemma_desc_seq_shape(start - 1, end);
    }
}

/// Iteration parity: a bounded, well-directed range yields exactly
/// `|end - start| + 1` values, whichever direction it runs in.
pub proof fn lemma_iteration_parity(r: LRange)
    requires
        r.wf(),
        r.directed(),
        r.end is Some,
    ensures
        r.bounded_yields().len() == if r.start <= r.end.unwrap() {
            r.end.unwrap() - r.start + 1
        } else {
            r.start - r.end.unwrap() + 1
        },
{
    if r.step == 1 {
        lemma_asc_seq_shape(r.start as int, r.end.unwrap() as int);
    } else {
        lemma_desc_seq_shape(r.start as int, r.end.unwrap() as int);
    }
}

} // verus!
