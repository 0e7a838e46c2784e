//! The grid laid over a day: blocks of a fixed number of minutes, counted
//! from midnight, and the conversion between a block's index and the times
//! it covers.

use super::time::{Hms, TimeOfDay};
use vstd::prelude::*;

verus! {

/// Minutes in a day.
pub const MINUTES_PER_DAY: usize = 1440;

/// The widest block, in minutes.
pub const MAX_INTERVAL: usize = 60;

/// Why a grid, or a place on it, was refused.
#[derive(Clone, Copy, Debug, PartialEq, Eq, Structural)]
pub enum ConfigurationError {
    /// The interval is zero or wider than [`MAX_INTERVAL`] minutes.
    IntervalOutOfBounds,
    /// The interval does not divide the hour evenly, so its blocks would not
    /// fill the day.
    IntervalNotDivisor,
    /// The index is not below the number of whole blocks in a day.
    IndexOutOfRange,
}

/// An interval that the indexer accepts: from 1 to 60 minutes.
pub open spec fn interval_in_bounds(interval: int) -> bool {
    1 <= interval <= 60
}

/// An interval whose blocks fill the day exactly: in bounds and a divisor of 60.
pub open spec fn interval_fills_day(interval: int) -> bool {
    interval_in_bounds(interval) && 60int % interval == 0
}

/// The number of whole blocks of `interval` minutes in a day.
pub open spec fn block_count(interval: int) -> int {
    1440int / interval
}

/// The time that lies `minute` whole minutes after midnight.
pub open spec fn time_at_minute(minute: int) -> Hms {
    Hms { hour: (minute / 60) as nat, minute: (minute % 60) as nat, second: 0 }
}

/// The last second of the day, 23:59:59.
pub open spec fn end_of_day() -> Hms {
    Hms { hour: 23, minute: 59, second: 59 }
}

/// The time at which block `index` starts.
pub open spec fn block_start(index: int, interval: int) -> Hms {
    time_at_minute(index * interval)
}

/// The time at which block `index` ends: the start of the next block, or
/// the last second of the day where the block reaches midnight.
pub open spec fn block_end(index: int, interval: int) -> Hms {
    if (index + 1) * interval >= 1440 {
        end_of_day()
    } else {
        time_at_minute((index + 1) * interval)
    }
}

/// The index of the block that holds `time`: its minute of the day divided
/// by the interval, rounded down.
pub open spec fn block_index(time: Hms, interval: int) -> int {
    (time.minute_of_day() as int) / interval
}

/// The error that [`index_to_time_range`] gives for `index` and `interval`,
/// if any. An index past the grid is reported before an interval that is
/// too wide.
pub open spec fn range_error(index: int, interval: int) -> Option<ConfigurationError> {
    if interval == 0 {
        Some(ConfigurationError::IntervalOutOfBounds)
    } else if index >= block_count(interval) {
        Some(ConfigurationError::IndexOutOfRange)
    } else if interval > 60 {
        Some(ConfigurationError::IntervalOutOfBounds)
    } else {
        None
    }
}

/// The minutes before block `index` and the block itself fit in the day.
proof fn lemma_block_within_day(index: int, interval: int)
    requires
        interval_in_bounds(interval),
        0 <= index < block_count(interval),
    ensures
        0 <= index * interval < 1440,
        index * interval + interval == (index + 1) * interval,
        (index + 1) * interval <= 1440,
{
    assert(0 <= index * interval && index * interval + interval == (index + 1) * interval
        && (index + 1) * interval <= 1440) by (nonlinear_arith)
        requires
            1 <= interval,
            0 <= index,
            index + 1 <= 1440int / interval,
    ;
}

/// The start and the end of block `index` on a grid of `interval_size`
/// minutes.
///
/// The end of the day's last block is 23:59:59, the last time of day there
/// is. Fails with [`ConfigurationError::IndexOutOfRange`] when the index is
/// not below `1440 / interval_size`, and with
/// [`ConfigurationError::IntervalOutOfBounds`] when the interval is zero or,
/// for an index that is in range, above 60.
pub fn index_to_time_range(index: usize, interval_size: usize) -> (r: Result<
    (TimeOfDay, TimeOfDay),
    ConfigurationError,
>)
    ensures
        match range_error(index as int, interval_size as int) {
            Some(e) => r == Err::<(TimeOfDay, TimeOfDay), ConfigurationError>(e),
            None => r matches Ok((start, end)) && start@ == block_start(
                index as int,
                interval_size as int,
            ) && end@ == block_end(index as int, interval_size as int),
        },
{
    if interval_size == 0 {
        return Err(ConfigurationError::IntervalOutOfBounds);
    }
    if index >= MINUTES_PER_DAY / interval_size {
        return Err(ConfigurationError::IndexOutOfRange);
    }
    if interval_size > MAX_INTERVAL {
        return Err(ConfigurationError::IntervalOutOfBounds);
    }
    proof {
        lemma_block_within_day(index as int, interval_size as int);
    }
    let start_minute: usize = index * interval_size;
    let start = TimeOfDay::from_hms_opt((start_minute / 60) as u32, (start_minute % 60) as u32, 0);
    let end_minute: usize = start_minute + interval_size;
    let end = if end_minute >= MINUTES_PER_DAY {
        TimeOfDay::from_hms_opt(23, 59, 59)
    } else {
        TimeOfDay::from_hms_opt((end_minute / 60) as u32, (end_minute % 60) as u32, 0)
    };
    Ok((start.unwrap(), end.unwrap()))
}

/// The index of the block that holds `time` on a grid of `interval_size`
/// minutes: every time inside a block gives that block's index.
///
/// Fails with [`ConfigurationError::IntervalOutOfBounds`] when the interval
/// is zero or above 60.
pub fn time_to_range_index(time: TimeOfDay, interval_size: usize) -> (r: Result<
    usize,
    ConfigurationError,
>)
    ensures
        interval_in_bounds(interval_size as int) ==> (r matches Ok(index) && index == block_index(
            time@,
            interval_size as int,
        )),
        !interval_in_bounds(interval_size as int) ==> r == Err::<usize, ConfigurationError>(
            ConfigurationError::IntervalOutOfBounds,
        ),
{
    if interval_size == 0 || interval_size > MAX_INTERVAL {
        return Err(ConfigurationError::IntervalOutOfBounds);
    }
    let minute: u32 = time.hour() * 60 + time.minute();
    Ok(minute as usize / interval_size)
}

/// A block's own start lies in that block: turning an index into its time
/// range and the start of that range back into an index gives the index
/// again.
pub proof fn lemma_start_maps_to_index(index: int, interval: int)
    requires
        interval_in_bounds(interval),
        0 <= index < block_count(interval),
    ensures
        block_start(index, interval).is_valid(),
        block_index(block_start(index, interval), interval) == index,
{
    lemma_block_within_day(index, interval);
    let minute = index * interval;
    assert(block_start(index, interval).minute_of_day() == minute);
    assert(minute / interval == index) by (nonlinear_arith)
        requires
            minute == index * interval,
            1 <= interval,
    ;
}

/// The block that a time maps to is the one whose minutes hold it: the
/// index is rounded down, never up.
pub proof fn lemma_index_brackets_time(time: Hms, interval: int)
    requires
        interval_in_bounds(interval),
    ensures
        0 <= block_index(time, interval),
        block_index(time, interval) * interval <= time.minute_of_day(),
        time.minute_of_day() < (block_index(time, interval) + 1) * interval,
{
    let minute = time.minute_of_day() as int;
    let index = minute / interval;
    assert(0 <= index && index * interval <= minute < (index + 1) * interval)
        by (nonlinear_arith)
        requires
            index == minute / interval,
            0 <= minute,
            1 <= interval,
    ;
}

/// All the times within one block map to that block's index.
pub proof fn lemma_times_in_block_share_index(time: Hms, index: int, interval: int)
    requires
        interval_in_bounds(interval),
        index * interval <= time.minute_of_day() < (index + 1) * interval,
    ensures
        block_index(time, interval) == index,
{
    let minute = time.minute_of_day() as int;
    assert(minute / interval == index) by (nonlinear_arith)
        requires
            index * interval <= minute < (index + 1) * interval,
            1 <= interval,
    ;
}

/// On a grid that fills the day, every time of day lies in one of its
/// blocks.
pub proof fn lemma_time_has_block(time: Hms, interval: int)
    requires
        time.is_valid(),
        interval_fills_day(interval),
    ensures
        0 <= block_index(time, interval) < block_count(interval),
{
    let minute = time.minute_of_day() as int;
    assert(0 <= minute / interval < 1440int / interval) by (nonlinear_arith)
        requires
            0 <= minute < 1440,
            1 <= interval <= 60,
            60int % interval == 0,
    ;
}

/// The blocks of a grid that fills the day partition the day: the first
/// starts at midnight, each ends where the next starts, and the last ends
/// with the last second of the day.
pub proof fn lemma_blocks_partition_day(index: int, interval: int)
    requires
        interval_fills_day(interval),
        0 <= index < block_count(interval),
    ensures
        block_count(interval) * interval == 1440,
        block_start(0, interval) == (Hms { hour: 0, minute: 0, second: 0 }),
        index + 1 < block_count(interval) ==> block_end(index, interval) == block_start(
            index + 1,
            interval,
        ),
        index + 1 == block_count(interval) ==> block_end(index, interval) == end_of_day(),
{
    let count = 1440int / interval;
    assert(count * interval == 1440) by (nonlinear_arith)
        requires
            count == 1440int / interval,
            1 <= interval <= 60,
            60int % interval == 0,
    ;
    assert(0 * interval == 0);
    if index + 1 < count {
        assert((index + 1) * interval < 1440) by (nonlinear_arith)
            requires
                index + 1 < count,
                count * interval == 1440,
                1 <= interval,
        ;
    }
}

} // verus!
