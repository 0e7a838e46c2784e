//! Times of day, to the second.

use chrono::NaiveTime;
use chrono::Timelike;
use vstd::prelude::*;

verus! {

/// The mathematical value of a [`TimeOfDay`]: hour, minute and second.
pub struct Hms {
    pub hour: nat,
    pub minute: nat,
    pub second: nat,
}

impl Hms {
    /// An hour below 24 with minute and second below 60.
    pub open spec fn is_valid(self) -> bool {
        self.hour < 24 && self.minute < 60 && self.second < 60
    }

    /// Whole minutes elapsed since midnight; the seconds are dropped.
    pub open spec fn minute_of_day(self) -> nat {
        self.hour * 60 + self.minute
    }
}

/// A time of day without a date or a time zone.
///
/// Every value is a real time of day: see [`TimeOfDay::is_valid`].
#[derive(Clone, Copy, Debug, PartialEq, Eq, Structural)]
pub struct TimeOfDay {
    hour: u32,
    minute: u32,
    second: u32,
}

impl View for TimeOfDay {
    type V = Hms;

    closed spec fn view(&self) -> Hms {
        Hms { hour: self.hour as nat, minute: self.minute as nat, second: self.second as nat }
    }
}

/// Hands hour, minute and second to `chrono::NaiveTime::from_hms_opt` and
/// reads the three parts of the time it builds back with
/// `chrono::Timelike::{hour, minute, second}`.
///
/// Trusted: chrono accepts exactly the hours below 24 with minute and second
/// below 60, and the time it builds reports the parts it was made from.
#[verifier::external_body]
fn naive_hms(hour: u32, min: u32, sec: u32) -> (r: Option<(u32, u32, u32)>)
    ensures
        hour < 24 && min < 60 && sec < 60 ==> r == Some((hour, min, sec)),
        !(hour < 24 && min < 60 && sec < 60) ==> r.is_none(),
{
    match NaiveTime::from_hms_opt(hour, min, sec) {
        Some(t) => Some((t.hour(), t.minute(), t.second())),
        None => None,
    }
}

impl TimeOfDay {
    /// What holds of every `TimeOfDay`.
    #[verifier::type_invariant]
    pub open spec fn is_valid(&self) -> bool {
        self@.is_valid()
    }

    /// The time with the given hour, minute and second, or `None` when the
    /// hour is 24 or more, or the minute or the second 60 or more.
    pub fn from_hms_opt(hour: u32, min: u32, sec: u32) -> (r: Option<TimeOfDay>)
        ensures
            r.is_some() <==> hour < 24 && min < 60 && sec < 60,
            r matches Some(t) ==> t@ == (Hms {
                hour: hour as nat,
                minute: min as nat,
                second: sec as nat,
            }),
    {
        match naive_hms(hour, min, sec) {
            Some((h, m, s)) => Some(TimeOfDay { hour: h, minute: m, second: s }),
            None => None,
        }
    }

    /// The hour, from 0 to 23.
    pub fn hour(&self) -> (r: u32)
        ensures
            r == self@.hour,
            r < 24,
    {
        proof {
            use_type_invariant(self);
        }
        self.hour
    }

    /// The minute, from 0 to 59.
    pub fn minute(&self) -> (r: u32)
        ensures
            r == self@.minute,
            r < 60,
    {
        proof {
            use_type_invariant(self);
        }
        self.minute
    }

    /// The second, from 0 to 59.
    pub fn second(&self) -> (r: u32)
        ensures
            r == self@.second,
            r < 60,
    {
        proof {
            use_type_invariant(self);
        }
        self.second
    }
}

} // verus!
