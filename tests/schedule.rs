use coop_door::{is_daylight, reconcile, reconcile_at, Almanac, DoorAction, DoorStatus, ScheduleGap, SunCouplet, TickError, GRACE_SECONDS};

fn uniform(days: usize) -> Almanac {
    Almanac::new(vec![SunCouplet { sunrise: 21600, sunset: 64800 }; days])
}

#[test]
fn grace_is_half_an_hour() {
    assert_eq!(GRACE_SECONDS, 1800);
}

#[test]
fn daylight_window_bounds() {
    assert!(!is_daylight(21600, 21600, 64800));
    assert!(is_daylight(21601, 21600, 64800));
    assert!(is_daylight(64800, 21600, 64800));
    assert!(is_daylight(66599, 21600, 64800));
    assert!(!is_daylight(66600, 21600, 64800));
    assert!(!is_daylight(0, 21600, 64800));
    assert!(!is_daylight(86399, 21600, 64800));
}

#[test]
fn daylight_extreme_sun_times() {
    assert!(is_daylight(0, i64::MIN, i64::MAX));
    assert!(!is_daylight(u32::MAX, i64::MAX, i64::MAX));
    assert!(!is_daylight(10, 0, i64::MIN));
}

#[test]
fn almanac_lookup_counts_days_from_one() {
    let a = Almanac::new(vec![
        SunCouplet { sunrise: 1, sunset: 2 },
        SunCouplet { sunrise: 3, sunset: 4 },
    ]);
    assert_eq!(a.len(), 2);
    assert_eq!(a.lookup(1), Ok(SunCouplet { sunrise: 1, sunset: 2 }));
    assert_eq!(a.lookup(2), Ok(SunCouplet { sunrise: 3, sunset: 4 }));
    assert_eq!(a.lookup(0), Err(ScheduleGap { ordinal: 0 }));
    assert_eq!(a.lookup(3), Err(ScheduleGap { ordinal: 3 }));
}

#[test]
fn leap_day_missing_from_short_almanac() {
    let a = uniform(365);
    assert!(a.lookup(365).is_ok());
    assert_eq!(a.lookup(366), Err(ScheduleGap { ordinal: 366 }));
}

#[test]
fn end_to_end_morning_tick() {
    let a = uniform(366);
    let s = DoorStatus { executed: 1, up: 0, over_ride: 0, over_ride_day: 0 };
    let (lit, d) = reconcile_at(s, &a, 30000, 100).unwrap();
    assert!(lit);
    assert_eq!(d.status, DoorStatus { executed: 0, up: 1, over_ride: 0, over_ride_day: 100 });
    assert_eq!(d.action, DoorAction::Open);
}

#[test]
fn evening_tick_in_grace_keeps_door_open() {
    let a = uniform(366);
    let s = DoorStatus { executed: 1, up: 1, over_ride: 0, over_ride_day: 99 };
    let (lit, d) = reconcile_at(s, &a, 65000, 100).unwrap();
    assert!(lit);
    assert_eq!(d.status, DoorStatus { executed: 1, up: 1, over_ride: 0, over_ride_day: 100 });
    let (lit, d) = reconcile_at(s, &a, 66600, 100).unwrap();
    assert!(!lit);
    assert_eq!(d.status, DoorStatus { executed: 0, up: 0, over_ride: 0, over_ride_day: 100 });
}

#[test]
fn tick_on_missing_day_is_a_gap() {
    let a = uniform(10);
    let s = DoorStatus { executed: 1, up: 0, over_ride: 0, over_ride_day: 0 };
    assert_eq!(reconcile_at(s, &a, 30000, 11), Err(ScheduleGap { ordinal: 11 }));
}

#[test]
fn live_tick_with_full_almanac() {
    let a = uniform(366);
    let s = DoorStatus { executed: 1, up: 0, over_ride: 0, over_ride_day: 0 };
    let t = reconcile(s, &a, 0).unwrap();
    assert!(t.clock.now_seconds < 86400);
    assert!(1 <= t.clock.ordinal && t.clock.ordinal <= 366);
    assert_eq!(t.decision.status.over_ride_day, t.clock.ordinal);
    assert_eq!(t.daylight, is_daylight(t.clock.now_seconds, 21600, 64800));
}

#[test]
fn live_tick_with_empty_almanac() {
    let a = uniform(0);
    let s = DoorStatus { executed: 1, up: 0, over_ride: 0, over_ride_day: 0 };
    match reconcile(s, &a, 0) {
        Err(TickError::ScheduleGap(g)) => assert!(1 <= g.ordinal && g.ordinal <= 366),
        other => panic!("unexpected {:?}", other),
    }
}

#[test]
fn live_tick_with_huge_offset() {
    let a = uniform(366);
    let s = DoorStatus { executed: 1, up: 0, over_ride: 0, over_ride_day: 0 };
    assert_eq!(reconcile(s, &a, i64::MAX), Err(TickError::ClockOutOfRange));
}
