//! Prayer-time notifier core: daily schedules, next-event selection, wait
//! computation and the status record emitted once per cycle.

pub mod error;
pub mod location;
pub mod prayer;
pub mod localtime;
pub mod schedule;
pub mod scheduler;
pub mod text;
pub mod time;
