use vstd::prelude::*;
use crate::clock::{get_now, utc_ordinal, ClockReading};
use crate::door::DoorStatus;
use crate::engine::{decide, spec_decide, Decision};
use crate::sun::{daylight, is_daylight, Almanac, ScheduleGap, SunCouplet};

verus! {

/// Why a tick of the reconciliation loop was skipped.
#[derive(Clone, Copy, Debug, PartialEq, Eq, Structural)]
pub enum TickError {
    /// The clock, moved by the configured offset, left the calendar.
    ClockOutOfRange,
    /// The almanac has no entry for the current day of year.
    ScheduleGap(ScheduleGap),
}

/// What one tick saw and decided.
#[derive(Clone, Copy, Debug, PartialEq, Eq, Structural)]
pub struct Tick {
    pub clock: ClockReading,
    pub daylight: bool,
    pub decision: Decision,
}

/// Whether the almanac's entry for `ordinal` makes `now_seconds` daylight.
pub open spec fn daylight_on(almanac: Seq<SunCouplet>, now_seconds: int, ordinal: int) -> bool
    recommends
        1 <= ordinal <= almanac.len(),
{
    daylight(now_seconds, almanac[ordinal - 1].sunrise as int, almanac[ordinal - 1].sunset as int)
}

/// One decision at a known moment: looks up the day's sun times, evaluates
/// the daylight and decides the next record. Fails with a gap, and decides
/// nothing, where the almanac has no entry for the day.
pub fn reconcile_at(status: DoorStatus, almanac: &Almanac, now_seconds: u32, ordinal: u16) -> (r:
    Result<(bool, Decision), ScheduleGap>)
    ensures
        r is Ok <==> 1 <= ordinal <= almanac@.len(),
        r matches Ok((lit, d)) ==> {
            &&& lit == daylight_on(almanac@, now_seconds as int, ordinal as int)
            &&& d == spec_decide(status, lit, ordinal)
        },
        r matches Err(g) ==> g == (ScheduleGap { ordinal: ordinal as u32 }),
{
    let couplet = match almanac.lookup(ordinal as u32) {
        Ok(c) => c,
        Err(g) => return Err(g),
    };
    let lit = is_daylight(now_seconds, couplet.sunrise, couplet.sunset);
    Ok((lit, decide(status, lit, ordinal)))
}

/// One tick of the reconciliation loop: reads the clock moved by
/// `hour_offset` hours and decides the next record for that moment.
pub fn reconcile(status: DoorStatus, almanac: &Almanac, hour_offset: i64) -> (r: Result<Tick, TickError>)
    ensures
        r matches Ok(t) ==> {
            &&& t.clock.now_seconds == t.clock.timestamp % 86400
            &&& t.clock.ordinal == utc_ordinal(t.clock.timestamp as int)
            &&& 1 <= t.clock.ordinal <= almanac@.len()
            &&& t.daylight == daylight_on(almanac@, t.clock.now_seconds as int, t.clock.ordinal as int)
            &&& t.decision == spec_decide(status, t.daylight, t.clock.ordinal)
        },
        r matches Err(TickError::ScheduleGap(g)) ==> {
            &&& 1 <= g.ordinal <= 366
            &&& g.ordinal > almanac@.len()
        },
{
    let clock = match get_now(hour_offset) {
        Some(c) => c,
        None => return Err(TickError::ClockOutOfRange),
    };
    match reconcile_at(status, almanac, clock.now_seconds, clock.ordinal) {
        Ok((lit, decision)) => Ok(Tick { clock, daylight: lit, decision }),
        Err(g) => Err(TickError::ScheduleGap(g)),
    }
}

} // verus!
