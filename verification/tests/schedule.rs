use tasksched::schedule::{
    index_to_time_range, time_to_range_index, ConfigurationError, DaySchedule, TimeOfDay,
    TimeStatus, WeekSchedule, Weekday,
};

fn hms(hour: u32, min: u32, sec: u32) -> TimeOfDay {
    TimeOfDay::from_hms_opt(hour, min, sec).unwrap()
}

const ALL_DAYS: [Weekday; 7] = [
    Weekday::Mon,
    Weekday::Tue,
    Weekday::Wed,
    Weekday::Thu,
    Weekday::Fri,
    Weekday::Sat,
    Weekday::Sun,
];

const DIVISORS_OF_60: [usize; 12] = [1, 2, 3, 4, 5, 6, 10, 12, 15, 20, 30, 60];

#[test]
fn test_index_to_time_range() {
    assert_eq!(
        index_to_time_range(0, 15),
        Ok((
            TimeOfDay::from_hms_opt(0, 0, 0).unwrap(),
            TimeOfDay::from_hms_opt(0, 15, 0).unwrap()
        ))
    );
    assert_eq!(
        index_to_time_range(9, 15),
        Ok((
            TimeOfDay::from_hms_opt(2, 15, 0).unwrap(),
            TimeOfDay::from_hms_opt(2, 30, 0).unwrap()
        ))
    );
    assert_eq!(
        index_to_time_range(95, 15),
        Ok((
            TimeOfDay::from_hms_opt(23, 45, 0).unwrap(),
            TimeOfDay::from_hms_opt(23, 59, 59).unwrap()
        ))
    );
}

#[test]
fn test_time_to_range_index() {
    assert_eq!(
        time_to_range_index(TimeOfDay::from_hms_opt(0, 0, 0).unwrap(), 15),
        Ok(0)
    );
    assert_eq!(
        time_to_range_index(TimeOfDay::from_hms_opt(2, 15, 0).unwrap(), 15),
        Ok(9)
    );
    assert_eq!(
        time_to_range_index(TimeOfDay::from_hms_opt(23, 45, 0).unwrap(), 15),
        Ok(95)
    );
}

#[test]
fn test_block_set() {
    let mut day_schedule = DaySchedule::new();
    let check_time = TimeOfDay::from_hms_opt(2, 17, 0).unwrap();
    assert_eq!(day_schedule.get_time_status(check_time), TimeStatus::Free);

    let start_time = TimeOfDay::from_hms_opt(2, 15, 0).unwrap();
    let end_time = TimeOfDay::from_hms_opt(3, 15, 0).unwrap();
    let check_time_2 = TimeOfDay::from_hms_opt(2, 48, 0).unwrap();
    day_schedule.set_time_status(start_time, end_time, TimeStatus::Free);
    assert_eq!(day_schedule.get_time_status(check_time), TimeStatus::Free);
    assert_eq!(day_schedule.get_time_status(check_time_2), TimeStatus::Free);
}

#[test]
fn test_week_block_set() {
    let mut week_schedule = WeekSchedule::default();
    let check_time = TimeOfDay::from_hms_opt(2, 17, 0).unwrap();
    assert_eq!(
        week_schedule.get_time_status(Weekday::Tue, check_time),
        TimeStatus::Free
    );

    let start_time = TimeOfDay::from_hms_opt(2, 15, 0).unwrap();
    let end_time = TimeOfDay::from_hms_opt(3, 15, 0).unwrap();
    let check_time_2 = TimeOfDay::from_hms_opt(2, 48, 0).unwrap();
    week_schedule.set_time_status(Weekday::Tue, start_time, end_time, TimeStatus::Free);
    assert_eq!(
        week_schedule.get_time_status(Weekday::Tue, check_time),
        TimeStatus::Free
    );
    assert_eq!(
        week_schedule.get_time_status(Weekday::Tue, check_time_2),
        TimeStatus::Free
    );
    assert_eq!(
        week_schedule.get_time_status(Weekday::Mon, check_time),
        TimeStatus::Free
    );
    assert_eq!(
        week_schedule.get_time_status(Weekday::Mon, check_time_2),
        TimeStatus::Free
    );
    assert_eq!(
        week_schedule.get_time_status(Weekday::Wed, check_time),
        TimeStatus::Free
    );
    assert_eq!(
        week_schedule.get_time_status(Weekday::Wed, check_time_2),
        TimeStatus::Free
    );
}

#[test]
fn time_of_day_accepts_exactly_the_times_of_a_day() {
    assert!(TimeOfDay::from_hms_opt(0, 0, 0).is_some());
    assert!(TimeOfDay::from_hms_opt(23, 59, 59).is_some());
    assert!(TimeOfDay::from_hms_opt(24, 0, 0).is_none());
    assert!(TimeOfDay::from_hms_opt(23, 60, 0).is_none());
    assert!(TimeOfDay::from_hms_opt(23, 59, 60).is_none());
    assert!(TimeOfDay::from_hms_opt(u32::MAX, 0, 0).is_none());
    assert!(TimeOfDay::from_hms_opt(0, u32::MAX, 0).is_none());
    assert!(TimeOfDay::from_hms_opt(0, 0, u32::MAX).is_none());
}

#[test]
fn time_of_day_keeps_its_parts() {
    for hour in 0..24 {
        for min in 0..60 {
            for sec in [0, 1, 30, 59] {
                let time = hms(hour, min, sec);
                assert_eq!((time.hour(), time.minute(), time.second()), (hour, min, sec));
            }
        }
    }
    assert_eq!(hms(2, 15, 0), hms(2, 15, 0));
    assert_ne!(hms(2, 15, 0), hms(2, 15, 1));
    assert_ne!(hms(2, 15, 0), hms(15, 2, 0));
}

#[test]
fn start_of_every_block_maps_back_to_its_index() {
    for interval in 1..=60usize {
        for index in 0..1440 / interval {
            let (start, _) = index_to_time_range(index, interval).unwrap();
            assert_eq!(time_to_range_index(start, interval), Ok(index));
        }
    }
}

#[test]
fn every_time_in_a_block_maps_to_that_block() {
    assert_eq!(time_to_range_index(hms(2, 15, 0), 15), Ok(9));
    assert_eq!(time_to_range_index(hms(2, 17, 0), 15), Ok(9));
    assert_eq!(time_to_range_index(hms(2, 29, 59), 15), Ok(9));
    assert_eq!(time_to_range_index(hms(2, 30, 0), 15), Ok(10));
    assert_eq!(time_to_range_index(hms(23, 59, 59), 15), Ok(95));
    assert_eq!(time_to_range_index(hms(23, 59, 59), 60), Ok(23));
    assert_eq!(time_to_range_index(hms(23, 59, 59), 1), Ok(1439));
    assert_eq!(time_to_range_index(hms(1, 1, 0), 7), Ok(8));
}

#[test]
fn last_block_ends_with_the_last_second_of_the_day() {
    let (start, end) = index_to_time_range(95, 15).unwrap();
    assert_eq!(start, hms(23, 45, 0));
    assert_eq!(end, hms(23, 59, 59));
    assert_ne!(end, hms(0, 0, 0));
    for interval in DIVISORS_OF_60 {
        let last = 1440 / interval - 1;
        let (_, end) = index_to_time_range(last, interval).unwrap();
        assert_eq!(end, hms(23, 59, 59));
    }
    let (_, before_last) = index_to_time_range(94, 15).unwrap();
    assert_eq!(before_last, hms(23, 45, 0));
}

#[test]
fn block_ranges_follow_the_interval() {
    assert_eq!(index_to_time_range(0, 60), Ok((hms(0, 0, 0), hms(1, 0, 0))));
    assert_eq!(index_to_time_range(23, 60), Ok((hms(23, 0, 0), hms(23, 59, 59))));
    assert_eq!(index_to_time_range(7, 1), Ok((hms(0, 7, 0), hms(0, 8, 0))));
    assert_eq!(index_to_time_range(1439, 1), Ok((hms(23, 59, 0), hms(23, 59, 59))));
    assert_eq!(index_to_time_range(3, 20), Ok((hms(1, 0, 0), hms(1, 20, 0))));
    // 7 does not divide the day: its last whole block stops short of midnight
    assert_eq!(index_to_time_range(204, 7), Ok((hms(23, 48, 0), hms(23, 55, 0))));
}

#[test]
fn index_past_the_grid_is_refused() {
    assert_eq!(index_to_time_range(96, 15), Err(ConfigurationError::IndexOutOfRange));
    assert_eq!(index_to_time_range(usize::MAX, 15), Err(ConfigurationError::IndexOutOfRange));
    assert_eq!(index_to_time_range(24, 60), Err(ConfigurationError::IndexOutOfRange));
    assert_eq!(index_to_time_range(1440, 1), Err(ConfigurationError::IndexOutOfRange));
    assert_eq!(index_to_time_range(205, 7), Err(ConfigurationError::IndexOutOfRange));
    // the index is looked at before the width of the interval
    assert_eq!(index_to_time_range(23, 61), Err(ConfigurationError::IndexOutOfRange));
    assert_eq!(index_to_time_range(0, 1441), Err(ConfigurationError::IndexOutOfRange));
}

#[test]
fn interval_out_of_bounds_is_refused() {
    assert_eq!(index_to_time_range(0, 61), Err(ConfigurationError::IntervalOutOfBounds));
    assert_eq!(index_to_time_range(22, 61), Err(ConfigurationError::IntervalOutOfBounds));
    assert_eq!(index_to_time_range(0, 1440), Err(ConfigurationError::IntervalOutOfBounds));
    assert_eq!(index_to_time_range(0, 0), Err(ConfigurationError::IntervalOutOfBounds));
    assert_eq!(index_to_time_range(96, 0), Err(ConfigurationError::IntervalOutOfBounds));
    assert_eq!(
        time_to_range_index(hms(2, 15, 0), 61),
        Err(ConfigurationError::IntervalOutOfBounds)
    );
    assert_eq!(
        time_to_range_index(hms(2, 15, 0), usize::MAX),
        Err(ConfigurationError::IntervalOutOfBounds)
    );
    assert_eq!(
        time_to_range_index(hms(2, 15, 0), 0),
        Err(ConfigurationError::IntervalOutOfBounds)
    );
    assert_eq!(time_to_range_index(hms(2, 15, 0), 60), Ok(2));
}

#[test]
fn day_refuses_an_interval_that_does_not_fill_the_day() {
    assert_eq!(
        DaySchedule::with_interval(61).err(),
        Some(ConfigurationError::IntervalOutOfBounds)
    );
    assert_eq!(
        DaySchedule::with_interval(0).err(),
        Some(ConfigurationError::IntervalOutOfBounds)
    );
    assert_eq!(
        DaySchedule::with_interval(usize::MAX).err(),
        Some(ConfigurationError::IntervalOutOfBounds)
    );
    assert_eq!(
        DaySchedule::with_interval(7).err(),
        Some(ConfigurationError::IntervalNotDivisor)
    );
    assert_eq!(
        DaySchedule::with_interval(45).err(),
        Some(ConfigurationError::IntervalNotDivisor)
    );
    for interval in 1..=60usize {
        assert_eq!(DaySchedule::with_interval(interval).is_ok(), 60 % interval == 0);
    }
}

#[test]
fn fresh_day_is_free_on_all_96_blocks() {
    let day = DaySchedule::new();
    assert_eq!(day.interval_size(), 15);
    assert_eq!(day.block_count(), 96);
    for index in 0..96 {
        let block = day.block(index).unwrap();
        assert_eq!(block.status(), TimeStatus::Free);
        let (start, end) = index_to_time_range(index, 15).unwrap();
        assert_eq!(block.start(), start);
        assert_eq!(block.end(), end);
        assert_eq!(day.get_time_status(start), TimeStatus::Free);
    }
    assert!(day.block(96).is_none());
    assert_eq!(day.get_time_status(hms(23, 59, 59)), TimeStatus::Free);
}

#[test]
fn blocks_of_a_day_partition_it() {
    for interval in DIVISORS_OF_60 {
        let day = DaySchedule::with_interval(interval).unwrap();
        let count = day.block_count();
        assert_eq!(count, 1440 / interval);
        assert_eq!(day.block(0).unwrap().start(), hms(0, 0, 0));
        for index in 0..count - 1 {
            assert_eq!(
                day.block(index).unwrap().end(),
                day.block(index + 1).unwrap().start()
            );
        }
        assert_eq!(day.block(count - 1).unwrap().end(), hms(23, 59, 59));
        assert!(day.block(count).is_none());
    }
}

#[test]
fn set_range_marks_its_blocks_and_no_others() {
    let mut day = DaySchedule::new();
    day.set_time_status(hms(2, 15, 0), hms(3, 15, 0), TimeStatus::Busy);
    assert_eq!(day.get_time_status(hms(2, 17, 0)), TimeStatus::Busy);
    assert_eq!(day.get_time_status(hms(2, 48, 0)), TimeStatus::Busy);
    assert_eq!(day.get_time_status(hms(2, 15, 0)), TimeStatus::Busy);
    assert_eq!(day.get_time_status(hms(3, 14, 59)), TimeStatus::Busy);
    assert_eq!(day.get_time_status(hms(2, 14, 59)), TimeStatus::Free);
    assert_eq!(day.get_time_status(hms(3, 15, 0)), TimeStatus::Free);
    assert_eq!(day.get_time_status(hms(0, 0, 0)), TimeStatus::Free);
    assert_eq!(day.get_time_status(hms(23, 59, 59)), TimeStatus::Free);
    for index in 0..96 {
        let expected = if (9..13).contains(&index) { TimeStatus::Busy } else { TimeStatus::Free };
        assert_eq!(day.block(index).unwrap().status(), expected);
    }

    day.set_time_status(hms(2, 15, 0), hms(3, 15, 0), TimeStatus::Free);
    for index in 0..96 {
        assert_eq!(day.block(index).unwrap().status(), TimeStatus::Free);
    }
}

#[test]
fn set_range_floors_times_to_their_blocks() {
    let mut day = DaySchedule::new();
    day.set_time_status(hms(2, 20, 0), hms(3, 20, 0), TimeStatus::Busy);
    for index in 0..96 {
        let expected = if (9..13).contains(&index) { TimeStatus::Busy } else { TimeStatus::Free };
        assert_eq!(day.block(index).unwrap().status(), expected);
    }
    // both ends in one block: nothing to set
    day.set_time_status(hms(5, 1, 0), hms(5, 14, 0), TimeStatus::Busy);
    assert_eq!(day.get_time_status(hms(5, 1, 0)), TimeStatus::Free);
}

#[test]
fn set_range_with_end_before_start_changes_nothing() {
    let mut day = DaySchedule::new();
    day.set_time_status(hms(3, 15, 0), hms(2, 15, 0), TimeStatus::Busy);
    day.set_time_status(hms(4, 0, 0), hms(4, 0, 0), TimeStatus::Busy);
    for index in 0..96 {
        assert_eq!(day.block(index).unwrap().status(), TimeStatus::Free);
    }
}

#[test]
fn adjacent_ranges_do_not_write_the_block_between_them_twice() {
    let mut day = DaySchedule::new();
    day.set_time_status(hms(0, 0, 0), hms(23, 59, 59), TimeStatus::Busy);
    day.set_time_status(hms(2, 0, 0), hms(3, 0, 0), TimeStatus::Free);
    day.set_time_status(hms(3, 0, 0), hms(4, 0, 0), TimeStatus::Busy);
    assert_eq!(day.get_time_status(hms(1, 59, 0)), TimeStatus::Busy);
    assert_eq!(day.get_time_status(hms(2, 0, 0)), TimeStatus::Free);
    assert_eq!(day.get_time_status(hms(2, 59, 59)), TimeStatus::Free);
    assert_eq!(day.get_time_status(hms(3, 0, 0)), TimeStatus::Busy);
    assert_eq!(day.get_time_status(hms(3, 59, 0)), TimeStatus::Busy);
    // the range stops short of the block that holds its end
    assert_eq!(day.get_time_status(hms(23, 44, 0)), TimeStatus::Busy);
    assert_eq!(day.get_time_status(hms(23, 45, 0)), TimeStatus::Free);
}

#[test]
fn day_with_another_interval() {
    let mut day = DaySchedule::with_interval(30).unwrap();
    assert_eq!(day.interval_size(), 30);
    assert_eq!(day.block_count(), 48);
    day.set_time_status(hms(2, 15, 0), hms(3, 15, 0), TimeStatus::Busy);
    assert_eq!(day.get_time_status(hms(1, 59, 0)), TimeStatus::Free);
    assert_eq!(day.get_time_status(hms(2, 0, 0)), TimeStatus::Busy);
    assert_eq!(day.get_time_status(hms(2, 59, 0)), TimeStatus::Busy);
    assert_eq!(day.get_time_status(hms(3, 0, 0)), TimeStatus::Free);
    let block = day.block(4).unwrap();
    assert_eq!((block.start(), block.end()), (hms(2, 0, 0), hms(2, 30, 0)));
    assert_eq!(block.status(), TimeStatus::Busy);
}

#[test]
fn fresh_week_is_free_on_every_day() {
    let week = WeekSchedule::default();
    for day in ALL_DAYS {
        for index in 0..96 {
            let (start, _) = index_to_time_range(index, 15).unwrap();
            assert_eq!(week.get_time_status(day, start), TimeStatus::Free);
        }
    }
}

#[test]
fn week_keeps_its_days_apart() {
    let mut week = WeekSchedule::default();
    week.set_time_status(Weekday::Tue, hms(2, 15, 0), hms(3, 15, 0), TimeStatus::Busy);
    assert_eq!(week.get_time_status(Weekday::Tue, hms(2, 17, 0)), TimeStatus::Busy);
    assert_eq!(week.get_time_status(Weekday::Tue, hms(2, 48, 0)), TimeStatus::Busy);
    assert_eq!(week.get_time_status(Weekday::Tue, hms(3, 15, 0)), TimeStatus::Free);
    for day in ALL_DAYS {
        if day != Weekday::Tue {
            assert_eq!(week.get_time_status(day, hms(2, 17, 0)), TimeStatus::Free);
            assert_eq!(week.get_time_status(day, hms(2, 48, 0)), TimeStatus::Free);
        }
    }
    week.set_time_status(Weekday::Sun, hms(2, 30, 0), hms(2, 45, 0), TimeStatus::Busy);
    assert_eq!(week.get_time_status(Weekday::Sun, hms(2, 30, 0)), TimeStatus::Busy);
    assert_eq!(week.get_time_status(Weekday::Sun, hms(2, 17, 0)), TimeStatus::Free);
    assert_eq!(week.get_time_status(Weekday::Tue, hms(2, 17, 0)), TimeStatus::Busy);
    assert_eq!(week.get_time_status(Weekday::Mon, hms(2, 30, 0)), TimeStatus::Free);
}

#[test]
fn weekdays_count_from_monday() {
    for (number, day) in ALL_DAYS.iter().enumerate() {
        assert_eq!(day.num_days_from_monday(), number);
    }
}
