//! One day's availability: a status for every block of the day's grid.

use super::indexer::{
    block_count, block_end, block_index, block_start, index_to_time_range, interval_fills_day,
    interval_in_bounds, lemma_time_has_block, time_to_range_index, ConfigurationError,
    MAX_INTERVAL, MINUTES_PER_DAY,
};
use super::time::{Hms, TimeOfDay};
use vstd::prelude::*;

verus! {

/// Whether a stretch of time is available.
#[derive(Clone, Copy, Debug, PartialEq, Eq, Structural)]
pub enum TimeStatus {
    Free,
    Busy,
}

/// One block of a day's grid: the times it runs between and its status.
#[derive(Clone, Copy, Debug, PartialEq, Eq, Structural)]
pub struct TimeBlock {
    start: TimeOfDay,
    end: TimeOfDay,
    status: TimeStatus,
}

/// The interval, in minutes, of a fresh [`DaySchedule`].
pub const DEFAULT_INTERVAL: usize = 15;

/// The mathematical value of a [`DaySchedule`]: the width of its blocks in
/// minutes and the status of each block, in the order of the day.
pub struct DayGrid {
    pub interval: nat,
    pub statuses: Seq<TimeStatus>,
}

impl DayGrid {
    /// The blocks fill the day, and each has a status.
    pub open spec fn is_valid(self) -> bool {
        &&& interval_fills_day(self.interval as int)
        &&& self.statuses.len() == block_count(self.interval as int)
    }

    /// The grid of `interval` minutes on which every block has `status`.
    pub open spec fn uniform(interval: nat, status: TimeStatus) -> DayGrid {
        DayGrid {
            interval,
            statuses: Seq::new(block_count(interval as int) as nat, |i: int| status),
        }
    }

    /// Block `index` of the grid: the times it runs between and its status.
    pub open spec fn block(self, index: int) -> BlockView {
        BlockView {
            start: block_start(index, self.interval as int),
            end: block_end(index, self.interval as int),
            status: self.statuses[index],
        }
    }

    /// The status of the block that holds `time`.
    pub open spec fn status_at(self, time: Hms) -> TimeStatus {
        self.statuses[block_index(time, self.interval as int)]
    }

    /// This grid with `status` on every block from the one that holds
    /// `start` up to, and without, the one that holds `end`.
    pub open spec fn with_range(self, start: Hms, end: Hms, status: TimeStatus) -> DayGrid {
        DayGrid {
            interval: self.interval,
            statuses: Seq::new(
                self.statuses.len(),
                |i: int|
                    if block_index(start, self.interval as int) <= i < block_index(
                        end,
                        self.interval as int,
                    ) {
                        status
                    } else {
                        self.statuses[i]
                    },
            ),
        }
    }
}

/// The error that [`DaySchedule::with_interval`] gives for `interval`, if
/// any.
pub open spec fn interval_error(interval: int) -> Option<ConfigurationError> {
    if !interval_in_bounds(interval) {
        Some(ConfigurationError::IntervalOutOfBounds)
    } else if 60int % interval != 0 {
        Some(ConfigurationError::IntervalNotDivisor)
    } else {
        None
    }
}

/// The mathematical value of a [`TimeBlock`].
pub struct BlockView {
    pub start: Hms,
    pub end: Hms,
    pub status: TimeStatus,
}

impl View for TimeBlock {
    type V = BlockView;

    closed spec fn view(&self) -> BlockView {
        BlockView { start: self.start@, end: self.end@, status: self.status }
    }
}

impl TimeBlock {
    /// The time at which the block starts.
    pub fn start(&self) -> (time: TimeOfDay)
        ensures
            time@ == self@.start,
    {
        self.start
    }

    /// The time at which the block ends.
    pub fn end(&self) -> (time: TimeOfDay)
        ensures
            time@ == self@.end,
    {
        self.end
    }

    /// Whether the block is free or busy.
    pub fn status(&self) -> (status: TimeStatus)
        ensures
            status == self@.status,
    {
        self.status
    }
}

/// Gives `status` to the blocks from index `from` up to, and without, index
/// `to`, and leaves the times of every block as they are.
///
/// It never unwinds, so a schedule that lends its blocks gets them back
/// complete.
fn mark_blocks(blocks: &mut Vec<TimeBlock>, from: usize, to: usize, status: TimeStatus)
    requires
        to <= old(blocks)@.len(),
    ensures
        final(blocks)@.len() == old(blocks)@.len(),
        forall|i: int|
            0 <= i < old(blocks)@.len() ==> {
                &&& (#[trigger] final(blocks)@[i]).start == old(blocks)@[i].start
                &&& final(blocks)@[i].end == old(blocks)@[i].end
                &&& final(blocks)@[i].status == (if from <= i < to {
                    status
                } else {
                    old(blocks)@[i].status
                })
            },
    no_unwind
{
    let mut index = from;
    while index < to
        invariant
            to <= blocks@.len(),
            blocks@.len() == old(blocks)@.len(),
            from <= index,
            index <= to || index == from,
            forall|i: int|
                0 <= i < blocks@.len() ==> {
                    &&& (#[trigger] blocks@[i]).start == old(blocks)@[i].start
                    &&& blocks@[i].end == old(blocks)@[i].end
                    &&& blocks@[i].status == (if from <= i < index {
                        status
                    } else {
                        old(blocks)@[i].status
                    })
                },
        decreases to - index,
    {
        blocks[index].status = status;
        index += 1;
    }
}

/// The availability of one day, block by block.
pub struct DaySchedule {
    blocks: Vec<TimeBlock>,
    interval_size: usize,
}

impl View for DaySchedule {
    type V = DayGrid;

    closed spec fn view(&self) -> DayGrid {
        DayGrid {
            interval: self.interval_size as nat,
            statuses: Seq::new(self.blocks@.len(), |i: int| self.blocks@[i].status),
        }
    }
}

impl DaySchedule {
    /// What holds of every `DaySchedule`: its blocks fill the day, in order,
    /// without a gap or an overlap.
    #[verifier::type_invariant]
    pub closed spec fn well_formed(&self) -> bool {
        &&& interval_fills_day(self.interval_size as int)
        &&& self.blocks@.len() == block_count(self.interval_size as int)
        &&& forall|i: int|
            0 <= i < self.blocks@.len() ==> {
                &&& (#[trigger] self.blocks@[i]).start@ == block_start(i, self.interval_size as int)
                &&& self.blocks@[i].end@ == block_end(i, self.interval_size as int)
            }
    }

    /// A well-formed schedule has a valid grid as its value.
    pub proof fn lemma_view_is_valid(&self)
        requires
            self.well_formed(),
        ensures
            self@.is_valid(),
    {
    }

    /// A day of `interval_size`-minute blocks, all of them free.
    ///
    /// Fails with [`ConfigurationError::IntervalOutOfBounds`] when the
    /// interval is zero or above 60, and with
    /// [`ConfigurationError::IntervalNotDivisor`] when it is in bounds but
    /// does not divide 60.
    pub fn with_interval(interval_size: usize) -> (r: Result<DaySchedule, ConfigurationError>)
        ensures
            match interval_error(interval_size as int) {
                Some(e) => r matches Err(err) && err == e,
                None => r matches Ok(day) && day@ == DayGrid::uniform(
                    interval_size as nat,
                    TimeStatus::Free,
                ),
            },
    {
        if interval_size == 0 || interval_size > MAX_INTERVAL {
            return Err(ConfigurationError::IntervalOutOfBounds);
        }
        if 60 % interval_size != 0 {
            return Err(ConfigurationError::IntervalNotDivisor);
        }
        let count: usize = MINUTES_PER_DAY / interval_size;
        let mut blocks: Vec<TimeBlock> = Vec::new();
        let mut index: usize = 0;
        while index < count
            invariant
                interval_fills_day(interval_size as int),
                count == block_count(interval_size as int),
                index <= count,
                blocks@.len() == index,
                forall|i: int|
                    0 <= i < index ==> {
                        &&& (#[trigger] blocks@[i]).start@ == block_start(i, interval_size as int)
                        &&& blocks@[i].end@ == block_end(i, interval_size as int)
                        &&& blocks@[i].status == TimeStatus::Free
                    },
            decreases count - index,
        {
            let (start, end) = index_to_time_range(index, interval_size).unwrap();
            blocks.push(TimeBlock { start, end, status: TimeStatus::Free });
            index += 1;
        }
        let day = DaySchedule { blocks, interval_size };
        assert(day@.statuses =~= DayGrid::uniform(interval_size as nat, TimeStatus::Free).statuses);
        Ok(day)
    }

    /// A day of 96 blocks of 15 minutes, all of them free.
    pub fn new() -> (day: DaySchedule)
        ensures
            day@ == DayGrid::uniform(15, TimeStatus::Free),
            day@.statuses.len() == 96,
    {
        DaySchedule::with_interval(DEFAULT_INTERVAL).unwrap()
    }

    /// The width of a block, in minutes.
    pub fn interval_size(&self) -> (interval: usize)
        ensures
            interval == self@.interval,
    {
        self.interval_size
    }

    /// The number of blocks in the day.
    pub fn block_count(&self) -> (count: usize)
        ensures
            count == self@.statuses.len(),
    {
        self.blocks.len()
    }

    /// Block `index` of the day, or `None` when the day has no such block.
    pub fn block(&self, index: usize) -> (r: Option<TimeBlock>)
        ensures
            index < self@.statuses.len() ==> (r matches Some(b) && b@ == self@.block(index as int)),
            index >= self@.statuses.len() ==> r.is_none(),
    {
        proof {
            use_type_invariant(self);
        }
        if index < self.blocks.len() {
            Some(self.blocks[index])
        } else {
            None
        }
    }

    /// The status of the block that holds `time`.
    pub fn get_time_status(&self, time: TimeOfDay) -> (status: TimeStatus)
        ensures
            status == self@.status_at(time@),
    {
        proof {
            use_type_invariant(self);
            use_type_invariant(&time);
            lemma_time_has_block(time@, self.interval_size as int);
        }
        let index = time_to_range_index(time, self.interval_size).unwrap();
        self.blocks[index].status
    }

    /// Gives `status` to every block from the one that holds `start_time`
    /// up to, and without, the one that holds `end_time`.
    ///
    /// A time inside a block stands for the start of that block. Nothing
    /// changes when `end_time` lies in the block of `start_time` or in an
    /// earlier one.
    pub fn set_time_status(
        &mut self,
        start_time: TimeOfDay,
        end_time: TimeOfDay,
        status: TimeStatus,
    )
        ensures
            final(self)@ == old(self)@.with_range(start_time@, end_time@, status),
    {
        proof {
            use_type_invariant(&*self);
            use_type_invariant(&start_time);
            use_type_invariant(&end_time);
            lemma_time_has_block(start_time@, self.interval_size as int);
            lemma_time_has_block(end_time@, self.interval_size as int);
        }
        let start_index = time_to_range_index(start_time, self.interval_size).unwrap();
        let end_index = time_to_range_index(end_time, self.interval_size).unwrap();
        mark_blocks(&mut self.blocks, start_index, end_index, status);
        assert(self@.statuses =~= old(self)@.with_range(start_time@, end_time@, status).statuses);
    }
}

/// A uniform grid is valid, and has its one status at every time of day.
pub proof fn lemma_uniform_grid(interval: nat, status: TimeStatus, time: Hms)
    requires
        interval_fills_day(interval as int),
        time.is_valid(),
    ensures
        DayGrid::uniform(interval, status).is_valid(),
        DayGrid::uniform(interval, status).status_at(time) == status,
{
    lemma_time_has_block(time, interval as int);
}

/// Setting a range keeps the grid valid, gives the new status to exactly
/// the times whose block lies in the range, and leaves every other time of
/// day with the status it had.
pub proof fn lemma_with_range_status_at(
    grid: DayGrid,
    start: Hms,
    end: Hms,
    status: TimeStatus,
    time: Hms,
)
    requires
        grid.is_valid(),
        time.is_valid(),
    ensures
        grid.with_range(start, end, status).is_valid(),
        grid.with_range(start, end, status).status_at(time) == (if block_index(
            start,
            grid.interval as int,
        ) <= block_index(time, grid.interval as int) < block_index(end, grid.interval as int) {
            status
        } else {
            grid.status_at(time)
        }),
{
    lemma_time_has_block(time, grid.interval as int);
}

/// Ranges that meet compose: after setting the range from `first` to
/// `middle` and then the range from `middle` to `last`, every block has the
/// status of the one range that holds it, and the block that holds `middle`
/// belongs to the second range alone.
pub proof fn lemma_adjacent_ranges_compose(
    grid: DayGrid,
    first: Hms,
    middle: Hms,
    last: Hms,
    early: TimeStatus,
    late: TimeStatus,
    index: int,
)
    requires
        grid.is_valid(),
        0 <= index < grid.statuses.len(),
    ensures
        grid.with_range(first, middle, early).with_range(middle, last, late).statuses[index] == (
        if block_index(first, grid.interval as int) <= index < block_index(
            middle,
            grid.interval as int,
        ) {
            early
        } else if block_index(middle, grid.interval as int) <= index < block_index(
            last,
            grid.interval as int,
        ) {
            late
        } else {
            grid.statuses[index]
        }),
{
}

} // verus!
