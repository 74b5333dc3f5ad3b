//! The range allocator: a dispenser of non-overlapping, contiguous byte
//! sub-ranges over an inclusive span, shared by all workers of one stream.
//!
//! Successive calls to [`HeadersGen::next`] hand out strictly increasing,
//! gap-free inclusive ranges until the span is exhausted; together the
//! dispensed ranges cover the span exactly once. The allocator records its
//! dispensing history in ghost state, and [`lemma_range_coverage`] states
//! the coverage guarantee over that history.

use vstd::prelude::*;
use vstd::string::StringExecFns;

use crate::config::{referer, referer_rep, user_agent, user_agent_rep};
use crate::text::{range_header_rep, range_header_value};

verus! {

/// The three request headers of one ranged fetch, as name/value pairs:
/// the browser identity, the referer, and the byte range itself.
pub fn headers(lo: usize, hi: usize) -> (hs: Vec<(String, String)>)
    ensures
        hs@.len() == 3,
        hs@[0].0@ == "User-Agent"@ && hs@[0].1@ == user_agent_rep(),
        hs@[1].0@ == "Referer"@ && hs@[1].1@ == referer_rep(),
        hs@[2].0@ == "Range"@ && hs@[2].1@ == range_header_rep(lo as nat, hi as nat),
{
    let mut hs: Vec<(String, String)> = Vec::new();
    hs.push((String::from_str("User-Agent"), String::from_str(user_agent())));
    hs.push((String::from_str("Referer"), String::from_str(referer())));
    hs.push((String::from_str("Range"), range_header_value(lo, hi)));
    hs
}

/// Dispenses byte sub-ranges of `[base, bound]` of roughly `chunk` bytes,
/// clipping the final range to the bound.
pub struct HeadersGen {
    start: usize,
    to: usize,
    end: usize,
    chunk: usize,
    base: Ghost<usize>,
    taken: Ghost<Seq<(usize, usize)>>,
}

impl HeadersGen {
    /// The first offset of the span.
    pub closed spec fn base(&self) -> usize {
        self.base@
    }

    /// The last offset of the span.
    pub closed spec fn bound(&self) -> usize {
        self.end
    }

    /// The nominal size of each dispensed range.
    pub closed spec fn chunk_size(&self) -> usize {
        self.chunk
    }

    /// The next offset to dispense.
    pub closed spec fn cursor(&self) -> usize {
        self.start
    }

    /// Where the next dispensed range will nominally end, before clipping.
    pub closed spec fn mark(&self) -> usize {
        self.to
    }

    /// Every range dispensed so far, in order.
    pub closed spec fn taken(&self) -> Seq<(usize, usize)> {
        self.taken@
    }

    /// The span is used up: every further call returns nothing.
    pub open spec fn exhausted(&self) -> bool {
        self.cursor() > self.bound()
    }

    /// The dispensed ranges chain without gap or overlap from the base of
    /// the span up to the cursor.
    pub closed spec fn wf(&self) -> bool {
        &&& self.chunk >= 1
        &&& self.end + self.chunk <= usize::MAX
        &&& (forall|i: int|
            0 <= i < self.taken@.len() ==> (#[trigger] self.taken@[i]).0 <= self.taken@[i].1
                <= self.end)
        &&& (self.taken@.len() > 0 ==> self.taken@[0].0 == self.base@)
        &&& (forall|i: int|
            0 < i < self.taken@.len() ==> (#[trigger] self.taken@[i]).0 == self.taken@[i - 1].1
                + 1)
        &&& (if self.taken@.len() > 0 {
            self.start == self.taken@.last().1 + 1
        } else {
            self.start == self.base@
        })
        &&& self.start >= self.base@
        &&& (self.start <= self.end ==> self.to >= self.start)
    }

    /// A fresh allocator over the inclusive span `[start, end]`, dispensing
    /// ranges of `chunk` bytes. An empty span (`start > end`) begins
    /// exhausted. The arithmetic headroom bounds keep every later offset
    /// computation inside `usize`.
    pub fn new(start: usize, end: usize, chunk: usize) -> (g: HeadersGen)
        requires
            chunk >= 1,
            start + chunk <= usize::MAX,
            end + chunk <= usize::MAX,
        ensures
            g.wf(),
            g.base() == start,
            g.bound() == end,
            g.chunk_size() == chunk,
            g.cursor() == start,
            g.mark() == if start + chunk < end {
                start + chunk
            } else {
                end as int
            },
            g.taken() == Seq::<(usize, usize)>::empty(),
    {
        let to = if start + chunk < end {
            start + chunk
        } else {
            end
        };
        HeadersGen {
            start,
            to,
            end,
            chunk,
            base: Ghost(start),
            taken: Ghost(Seq::empty()),
        }
    }

    /// Dispense the next range: the inclusive sub-range starting at the
    /// cursor, clipped to the bound, or nothing once the span is exhausted.
    /// No offset is ever dispensed twice, and no offset is skipped.
    pub fn next(&mut self) -> (r: Option<(usize, usize)>)
        requires
            old(self).wf(),
        ensures
            final(self).wf(),
            final(self).base() == old(self).base(),
            final(self).bound() == old(self).bound(),
            final(self).chunk_size() == old(self).chunk_size(),
            old(self).exhausted() ==> r is None && *final(self) == *old(self),
            !old(self).exhausted() ==> r is Some && {
                let (lo, hi) = r->0;
                &&& lo == old(self).cursor()
                &&& hi == if old(self).mark() < old(self).bound() {
                    old(self).mark()
                } else {
                    old(self).bound()
                }
                &&& lo <= hi <= old(self).bound()
                &&& final(self).taken() == old(self).taken().push((lo, hi))
                &&& final(self).cursor() == hi + 1
                &&& final(self).mark() == hi + old(self).chunk_size()
            },
    {
        if self.start > self.end {
            return None;
        }
        let lo = self.start;
        let hi = if self.to < self.end {
            self.to
        } else {
            self.end
        };
        self.start = hi + 1;
        self.to = hi + self.chunk;
        self.taken = Ghost(self.taken@.push((lo, hi)));
        Some((lo, hi))
    }
}

/// Offset `b` falls inside one of the dispensed ranges.
pub open spec fn covered_by(taken: Seq<(usize, usize)>, b: int) -> bool {
    exists|i: int| 0 <= i < taken.len() && (#[trigger] taken[i]).0 <= b <= taken[i].1
}

/// The ends of the dispensed ranges grow strictly: a later range begins
/// after an earlier one ends.
proof fn lemma_hi_increasing(g: HeadersGen, i: int, j: int)
    requires
        g.wf(),
        0 <= i < j < g.taken().len(),
    ensures
        g.taken()[i].1 < g.taken()[j].0,
    decreases j - i,
{
    if i + 1 < j {
        lemma_hi_increasing(g, i + 1, j);
    }
}

/// Every offset from the base up to the end of the last dispensed range
/// falls inside some dispensed range with index below `n`.
proof fn lemma_prefix_coverage(g: HeadersGen, n: int, b: int)
    requires
        g.wf(),
        0 < n <= g.taken().len(),
        g.base() <= b <= g.taken()[n - 1].1,
    ensures
        covered_by(g.taken().subrange(0, n), b),
    decreases n,
{
    assert(g.taken().subrange(0, n)[n - 1] == g.taken()[n - 1]);
    if b >= g.taken()[n - 1].0 {
        assert(covered_by(g.taken().subrange(0, n), b));
    } else {
        assert(n >= 2);
        assert(g.taken()[n - 1].0 == g.taken()[n - 2].1 + 1);
        lemma_prefix_coverage(g, n - 1, b);
        let i = choose|i: int|
            0 <= i < n - 1 && (#[trigger] g.taken().subrange(0, n - 1)[i]).0 <= b <= g.taken()
                .subrange(0, n - 1)[i].1;
        assert(g.taken().subrange(0, n)[i] == g.taken().subrange(0, n - 1)[i]);
        assert(covered_by(g.taken().subrange(0, n), b));
    }
}

/// Range coverage: once an allocator is exhausted, the dispensed ranges
/// cover its span `[base, bound]` exactly — every offset of the span lies
/// in exactly one dispensed range, no two dispensed ranges overlap, and no
/// dispensed range reaches outside the span.
pub proof fn lemma_range_coverage(g: HeadersGen)
    requires
        g.wf(),
        g.exhausted(),
    ensures
        forall|b: int| g.base() <= b <= g.bound() ==> #[trigger] covered_by(g.taken(), b),
        forall|i: int, j: int|
            0 <= i < j < g.taken().len() ==> (#[trigger] g.taken()[i]).1 < (
            #[trigger] g.taken()[j]).0,
        forall|i: int|
            0 <= i < g.taken().len() ==> g.base() <= (#[trigger] g.taken()[i]).0
                <= g.taken()[i].1 <= g.bound(),
{
    assert forall|i: int, j: int| 0 <= i < j < g.taken().len() implies (#[trigger] g.taken()[i]).1
        < (#[trigger] g.taken()[j]).0 by {
        lemma_hi_increasing(g, i, j);
    }
    assert forall|i: int| 0 <= i < g.taken().len() implies g.base() <= (
    #[trigger] g.taken()[i]).0 <= g.taken()[i].1 <= g.bound() by {
        if i > 0 {
            lemma_hi_increasing(g, 0, i);
        }
    }
    assert forall|b: int| g.base() <= b <= g.bound() implies #[trigger] covered_by(
        g.taken(),
        b,
    ) by {
        assert(g.taken().len() > 0);
        assert(b <= g.taken().last().1);
        lemma_prefix_coverage(g, g.taken().len() as int, b);
        assert(g.taken().subrange(0, g.taken().len() as int) =~= g.taken());
    }
}

} // verus!
