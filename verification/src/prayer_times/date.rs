//! Date utility types.

use vstd::prelude::*;
use vstd::string::StringExecFns;
use crate::calendar::{lemma_day_number_injective, CivilDate};

verus! {

/// A range of dates, from a start date to an end date, both included. A range
/// whose end lies before its start holds no day.
#[derive(Debug, Clone, Copy, PartialEq, Eq, Structural)]
pub struct DateRange {
    start: CivilDate,
    end: CivilDate,
}

/// The blocks into which a range of `days` days from the day numbered `first`
/// is cut, `size` days to a block: block `k` starts `k` blocks after `first`
/// and ends a block later or with the range, whichever comes first.
pub open spec fn is_blocks_of(blocks: Seq<DateRange>, first: int, days: int, size: int) -> bool {
    &&& days > 0 ==> (blocks.len() - 1) * size < days <= blocks.len() * size
    &&& days <= 0 ==> blocks.len() == 0
    &&& forall|k: int|
        0 <= k < blocks.len() ==> {
            &&& (#[trigger] blocks[k]).is_valid()
            &&& blocks[k].first_day() == first + k * size
            &&& blocks[k].last_day() == (if (k + 1) * size < days {
                first + (k + 1) * size - 1
            } else {
                first + days - 1
            })
        }
}

impl DateRange {
    /// The first date of the range.
    pub closed spec fn start_spec(self) -> CivilDate {
        self.start
    }

    /// The last date of the range.
    pub closed spec fn end_spec(self) -> CivilDate {
        self.end
    }

    /// Whether the two dates of the range are dates of the calendar. Every
    /// range that a program holds is; a value that is only spoken of may not
    /// be.
    pub open spec fn is_valid(self) -> bool {
        self.start_spec().is_valid() && self.end_spec().is_valid()
    }

    /// The number of the first day of the range.
    pub open spec fn first_day(self) -> int {
        self.start_spec().day_number()
    }

    /// The number of the last day of the range.
    pub open spec fn last_day(self) -> int {
        self.end_spec().day_number()
    }

    /// The number of days of the range, both ends counted.
    pub open spec fn num_days_spec(self) -> int {
        if self.last_day() >= self.first_day() {
            self.last_day() - self.first_day() + 1
        } else {
            0
        }
    }

    /// The size of the blocks into which `partition` cuts the range for a
    /// count of blocks: the days divided by the count, rounded up.
    pub open spec fn block_size(self, count: int) -> int {
        (self.num_days_spec() + count - 1) / count
    }

    /// The range from `start` to `end`.
    pub fn new(start: CivilDate, end: CivilDate) -> (r: DateRange)
        ensures
            r.start_spec() == start,
            r.end_spec() == end,
    {
        DateRange { start, end }
    }

    /// The text of the range: the start date, a hyphen between spaces, and
    /// the end date.
    pub open spec fn text(self) -> Seq<char> {
        self.start_spec().text() + " - "@ + self.end_spec().text()
    }

    /// The range as text, such as `2023-01-01 - 2023-01-31`.
    pub fn to_string(&self) -> (s: String)
        ensures
            s@ == self.text(),
    {
        let mut out = self.start.to_string();
        out.append(" - ");
        let end = self.end.to_string();
        out.append(end.as_str());
        out
    }

    /// Two ranges of the same start and end are the same range.
    pub proof fn lemma_same_ends(self, other: DateRange)
        requires
            self.start_spec() == other.start_spec(),
            self.end_spec() == other.end_spec(),
        ensures
            self == other,
    {
    }

    /// The start date of the range.
    pub fn start_date(&self) -> (d: &CivilDate)
        ensures
            *d == self.start_spec(),
    {
        &self.start
    }

    /// The end date of the range.
    pub fn end_date(&self) -> (d: &CivilDate)
        ensures
            *d == self.end_spec(),
    {
        &self.end
    }

    /// The number of days of the range, both ends counted; zero where the end
    /// lies before the start.
    pub fn num_days(&self) -> (n: usize)
        ensures
            n == self.num_days_spec(),
            self.is_valid(),
            n <= 200_000_001,
    {
        let span = self.end.days_since(&self.start);
        proof {
            crate::geo::julian_day::lemma_day_number_range(self.start);
            crate::geo::julian_day::lemma_day_number_range(self.end);
        }
        if span >= 0 {
            (span + 1) as usize
        } else {
            0
        }
    }

    /// Cuts the range into blocks that follow one another and together hold
    /// each day of the range once. One block is asked for: it is the range
    /// itself. More are asked for: the blocks hold the days divided by
    /// `count`, rounded up, the last one what is left, and they are `count` at
    /// most.
    pub fn partition(&self, count: usize) -> (r: Vec<DateRange>)
        requires
            count > 0,
        ensures
            count == 1 ==> r@ == seq![*self],
            count > 1 ==> is_blocks_of(
                r@,
                self.first_day(),
                self.num_days_spec(),
                self.block_size(count as int),
            ),
            r.len() <= count,
    {
        if count == 1 {
            let mut v = Vec::new();
            v.push(*self);
            assert(v@ =~= seq![*self]);
            return v;
        }
        let days = self.num_days() as u64;
        let size: u64 = (((days as u128) + (count as u128) - 1) / (count as u128)) as u64;
        let mut blocks: Vec<DateRange> = Vec::new();
        let mut offset: u64 = 0;
        proof {
            lemma_block_size(days as int, count as int);
            assert(0 == blocks.len() * size) by (nonlinear_arith)
                requires
                    blocks.len() == 0,
            ;
        }
        while offset < days
            invariant
                count > 1,
                self.is_valid(),
                days == self.num_days_spec(),
                days <= 200_000_001,
                size == self.block_size(count as int),
                days > 0 ==> 0 < size <= days,
                days > 0 ==> days <= size * count,
                offset == blocks.len() * size,
                blocks.len() > 0 ==> (blocks.len() - 1) * size < days,
                days > 0 ==> offset < days + size,
                blocks.len() <= count,
                forall|k: int|
                    0 <= k < blocks.len() ==> {
                        &&& (#[trigger] blocks[k]).is_valid()
                        &&& blocks[k].first_day() == self.first_day() + k * size
                        &&& blocks[k].last_day() == (if (k + 1) * size < days {
                            self.first_day() + (k + 1) * size - 1
                        } else {
                            self.first_day() + days - 1
                        })
                    },
            decreases days + size - offset,
        {
            let ghost done = blocks.len() as int;
            let last: u64 = if offset + size < days {
                offset + size - 1
            } else {
                days - 1
            };
            proof {
                crate::geo::julian_day::lemma_day_number_range(self.start);
                crate::geo::julian_day::lemma_day_number_range(self.end);
                lemma_next_block(done, size as int, days as int, count as int);
            }
            let start = match self.start.checked_add_days(offset) {
                Some(date) => date,
                None => self.start,
            };
            let end = match self.start.checked_add_days(last) {
                Some(date) => date,
                None => self.end,
            };
            blocks.push(DateRange { start, end });
            offset = offset + size;
        }
        blocks
    }
}

/// The size of the blocks for a positive number of days is positive, at most
/// the number of days, and `count` blocks of it hold all the days.
pub proof fn lemma_block_size(days: int, count: int)
    requires
        count >= 1,
        days >= 0,
    ensures
        days > 0 ==> 0 < (days + count - 1) / count <= days,
        days <= ((days + count - 1) / count) * count,
{
    let size = (days + count - 1) / count;
    assert(days <= size * count && (days > 0 ==> 0 < size <= days)) by (nonlinear_arith)
        requires
            count >= 1,
            days >= 0,
            size == (days + count - 1) / count,
    ;
}

/// Where `done` blocks of `size` days do not yet hold all the days, one more
/// block starts where they end, and the blocks stay `count` at most.
pub proof fn lemma_next_block(done: int, size: int, days: int, count: int)
    requires
        0 <= done,
        0 < size,
        done * size < days,
        days <= size * count,
    ensures
        (done + 1) * size == done * size + size,
        done + 1 <= count,
{
    assert((done + 1) * size == done * size + size && done + 1 <= count) by (nonlinear_arith)
        requires
            0 <= done,
            0 < size,
            done * size < days,
            days <= size * count,
    ;
}

/// The blocks of a range follow one another without a gap: each starts on the
/// day after the one before it ends, the first starts with the range and the
/// last ends with it. So every day of the range lies in exactly one block.
pub proof fn law_blocks_cover_once(blocks: Seq<DateRange>, first: int, days: int, size: int)
    requires
        is_blocks_of(blocks, first, days, size),
        size > 0,
        days > 0,
    ensures
        blocks.len() > 0,
        blocks[0].first_day() == first,
        blocks[blocks.len() - 1].last_day() == first + days - 1,
        forall|k: int|
            0 <= k < blocks.len() - 1 ==> (#[trigger] blocks[k + 1]).first_day() == blocks[k].last_day()
                + 1,
        forall|k: int| 0 <= k < blocks.len() ==> (#[trigger] blocks[k]).first_day() <= blocks[k].last_day(),
{
    let n = blocks.len() as int;
    assert(n > 0) by (nonlinear_arith)
        requires
            (n - 1) * size < days <= n * size,
            days > 0,
            size > 0,
            n >= 0,
    ;
    assert forall|k: int| 0 <= k < n - 1 implies (#[trigger] blocks[k + 1]).first_day()
        == blocks[k].last_day() + 1 by {
        assert((k + 1) * size < days) by (nonlinear_arith)
            requires
                (n - 1) * size < days,
                k + 1 <= n - 1,
                size > 0,
        ;
    }
    assert forall|k: int| 0 <= k < n implies (#[trigger] blocks[k]).first_day()
        <= blocks[k].last_day() by {
        assert(k * size < days && (k + 1) * size == k * size + size) by (nonlinear_arith)
            requires
                (n - 1) * size < days,
                0 <= k <= n - 1,
                size > 0,
        ;
    }
}

/// A range of valid dates is given by the numbers of its first and last day.
pub proof fn law_range_is_given_by_its_days(a: DateRange, b: DateRange)
    requires
        a.is_valid(),
        b.is_valid(),
        a.first_day() == b.first_day(),
        a.last_day() == b.last_day(),
    ensures
        a == b,
{
    lemma_day_number_injective(a.start_spec(), b.start_spec());
    lemma_day_number_injective(a.end_spec(), b.end_spec());
    a.lemma_same_ends(b);
}

} // verus!
