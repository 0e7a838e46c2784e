//! The availability calendar: times of day, the grid of blocks laid over a
//! day, one day's availability and the week made of seven such days.

pub mod day;
pub mod indexer;
pub mod time;
pub mod week;

pub use day::{BlockView, DayGrid, DaySchedule, TimeBlock, TimeStatus};
pub use indexer::{index_to_time_range, time_to_range_index, ConfigurationError};
pub use time::{Hms, TimeOfDay};
pub use week::{WeekSchedule, Weekday};
