//! Calendar-arithmetic utilities over civil (wall-clock) date-times.
//!
//! The core of the crate is the month/year offset engine: shifting a civil
//! date-time by a signed number of months or years, clamping the day-of-month
//! to the target month's length, and reconstructing the result in the original
//! time zone. Zone resolution itself (unique / ambiguous / nonexistent wall
//! times) is delegated to chrono through a small set of trusted bindings.

pub mod bridge;
pub mod calendar;
pub mod civil;
pub mod easy;
pub mod engine;
pub mod laws;
pub mod render;
pub mod timestamp;

pub use calendar::days_in_month;
pub use calendar::is_leap_year;
pub use civil::CalendarError;
pub use civil::CivilDateTime;
pub use civil::LocalResolution;
pub use civil::Zone;
pub use easy::EasyTime;
pub use easy::EasyTimeOps;
pub use easy::TimeUnits;
