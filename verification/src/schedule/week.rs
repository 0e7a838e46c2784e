//! A week of availability: one day's schedule for each day of the week.

use super::day::{DayGrid, DaySchedule, TimeStatus};
use super::time::TimeOfDay;
use vstd::prelude::*;

verus! {

/// A day of the week.
#[derive(Clone, Copy, Debug, PartialEq, Eq, Hash, Structural)]
pub enum Weekday {
    Mon,
    Tue,
    Wed,
    Thu,
    Fri,
    Sat,
    Sun,
}

impl Weekday {
    /// The number of days since Monday: 0 for Monday, 6 for Sunday.
    pub open spec fn days_from_monday(self) -> int {
        match self {
            Weekday::Mon => 0,
            Weekday::Tue => 1,
            Weekday::Wed => 2,
            Weekday::Thu => 3,
            Weekday::Fri => 4,
            Weekday::Sat => 5,
            Weekday::Sun => 6,
        }
    }

    /// The number of days since Monday: 0 for Monday, 6 for Sunday.
    pub fn num_days_from_monday(&self) -> (n: usize)
        ensures
            n == self.days_from_monday(),
            n < 7,
    {
        match self {
            Weekday::Mon => 0,
            Weekday::Tue => 1,
            Weekday::Wed => 2,
            Weekday::Thu => 3,
            Weekday::Fri => 4,
            Weekday::Sat => 5,
            Weekday::Sun => 6,
        }
    }
}

/// The week in which every day has the grid `day`.
pub open spec fn uniform_week(day: DayGrid) -> Map<Weekday, DayGrid> {
    Map::new(|d: Weekday| true, |d: Weekday| day)
}

/// The availability of a week: a [`DaySchedule`] for each of the seven days.
///
/// Its value is the map from each day of the week to the grid of that day.
pub struct WeekSchedule {
    days: Vec<DaySchedule>,
}

impl View for WeekSchedule {
    type V = Map<Weekday, DayGrid>;

    closed spec fn view(&self) -> Map<Weekday, DayGrid> {
        Map::new(|d: Weekday| true, |d: Weekday| self.days@[d.days_from_monday()]@)
    }
}

impl Default for WeekSchedule {
    /// A week of seven fresh days: 15-minute blocks, all of them free.
    fn default() -> (week: WeekSchedule)
        ensures
            week@ == uniform_week(DayGrid::uniform(15, TimeStatus::Free)),
    {
        let mut days: Vec<DaySchedule> = Vec::new();
        let mut count: usize = 0;
        while count < 7
            invariant
                count <= 7,
                days@.len() == count,
                forall|i: int|
                    0 <= i < count ==> (#[trigger] days@[i])@ == DayGrid::uniform(
                        15,
                        TimeStatus::Free,
                    ),
            decreases 7 - count,
        {
            days.push(DaySchedule::new());
            count += 1;
        }
        let week = WeekSchedule { days };
        assert(week@ =~= uniform_week(DayGrid::uniform(15, TimeStatus::Free)));
        week
    }
}

impl WeekSchedule {
    /// What holds of every `WeekSchedule`: it has one schedule for each day
    /// of the week.
    #[verifier::type_invariant]
    pub closed spec fn well_formed(&self) -> bool {
        self.days@.len() == 7
    }

    /// No day of the week is missing from the value of a week.
    pub proof fn lemma_every_day_present(&self)
        ensures
            forall|day: Weekday| self@.dom().contains(day),
    {
    }

    /// The status, on `day`, of the block that holds `time`.
    pub fn get_time_status(&self, day: Weekday, time: TimeOfDay) -> (status: TimeStatus)
        ensures
            status == self@[day].status_at(time@),
    {
        proof {
            use_type_invariant(self);
        }
        self.days[day.num_days_from_monday()].get_time_status(time)
    }

    /// Gives `status`, on `day`, to every block from the one that holds
    /// `start_time` up to, and without, the one that holds `end_time`. The
    /// other six days are left as they are.
    pub fn set_time_status(
        &mut self,
        day: Weekday,
        start_time: TimeOfDay,
        end_time: TimeOfDay,
        status: TimeStatus,
    )
        ensures
            final(self)@ == old(self)@.insert(
                day,
                old(self)@[day].with_range(start_time@, end_time@, status),
            ),
            forall|other: Weekday| other != day ==> final(self)@[other] == old(self)@[other],
    {
        proof {
            use_type_invariant(&*self);
        }
        let index = day.num_days_from_monday();
        self.days[index].set_time_status(start_time, end_time, status);
        assert(self@ =~= old(self)@.insert(
            day,
            old(self)@[day].with_range(start_time@, end_time@, status),
        ));
    }
}

} // verus!
