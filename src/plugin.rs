//! Managers that wrap another manager to throttle or bound its validation.

pub mod check_duration_manager;
pub mod duration_manager;

pub use check_duration_manager::{CheckDurationManager, CheckMode, CheckVerdict};
pub use duration_manager::{CheckModeAtomic, DurationManager};
