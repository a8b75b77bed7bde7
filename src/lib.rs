//! Decision engine of an automatic chicken-coop door.
//!
//! Once per polling interval the door is raised or lowered from the day's
//! sunrise and sunset, unless a manual override holds for the current day.
//! The library holds the logic: the door record and its derived state, the
//! daylight window, the almanac of sun times, the decision itself, the clock
//! reading that feeds it, and the access check of the status endpoints.
pub mod clock;
pub mod config;
pub mod door;
pub mod engine;
pub mod gateway;
pub mod sun;
pub mod tick;

pub use clock::{get_now, read_clock_at, shift_hours, ClockReading};
pub use config::Config;
pub use door::{DoorState, DoorStatus};
pub use engine::{decide, Decision, DoorAction, Warning};
pub use gateway::{authorize, AccessError, GatewayError};
pub use sun::{is_daylight, Almanac, ScheduleGap, SunCouplet, GRACE_SECONDS};
pub use tick::{reconcile, reconcile_at, Tick, TickError};
