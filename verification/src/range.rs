//! Half-open ranges.
use std::ops::Range;
use vstd::prelude::*;

verus! {

/// Whether `value` lies in `[start, end)`.
pub open spec fn within(value: int, start: int, end: int) -> bool {
    start <= value < end
}

/// Whether some position lies in both `[start1, end1)` and `[start2, end2)`.
pub open spec fn meets(start1: int, end1: int, start2: int, end2: int) -> bool {
    exists|i: int| #[trigger] within(i, start1, end1) && within(i, start2, end2)
}

/// Whether `value` lies in the range.
pub fn in_range(value: i64, range: &Range<i64>) -> (b: bool)
    ensures
        b == within(value as int, range.start as int, range.end as int),
{
    value >= range.start && value < range.end
}

/// Whether two ranges of columns have a column in common.
pub fn intersects_range(r1: &Range<usize>, r2: &Range<usize>) -> (b: bool)
    ensures
        b == meets(r1.start as int, r1.end as int, r2.start as int, r2.end as int),
{
    let start: usize = if r1.start > r2.start {
        r1.start
    } else {
        r2.start
    };
    let end: usize = if r1.end < r2.end {
        r1.end
    } else {
        r2.end
    };
    proof {
        if start < end {
            assert(within(start as int, r1.start as int, r1.end as int));
        }
    }
    end > start
}

/// Whether two ranges of rows have a row in common.
pub fn intersects_rows(r1: &Range<i64>, r2: &Range<i64>) -> (b: bool)
    ensures
        b == meets(r1.start as int, r1.end as int, r2.start as int, r2.end as int),
{
    let start: i64 = if r1.start > r2.start {
        r1.start
    } else {
        r2.start
    };
    let end: i64 = if r1.end < r2.end {
        r1.end
    } else {
        r2.end
    };
    proof {
        if start < end {
            assert(within(start as int, r1.start as int, r1.end as int));
        }
    }
    end > start
}

} // verus!
