use vstd::prelude::*;
use crate::door::{DoorState, DoorStatus};

verus! {

/// The motion that a decision requests.
#[derive(Clone, Copy, Debug, PartialEq, Eq, Structural)]
pub enum DoorAction {
    Open,
    Close,
    Pass,
}

/// Why a decision passed although the door did not match the daylight.
#[derive(Clone, Copy, Debug, PartialEq, Eq, Structural)]
pub enum Warning {
    /// A requested opening was never confirmed and the record reads closing.
    ShouldHaveOpened,
    /// A requested closing was never confirmed and the record reads opening.
    ShouldHaveClosed,
    /// The door is still moving the way the daylight asks.
    MotionPending,
    /// The flags of the record are outside {0, 1}.
    UnrecognizedState,
}

/// The outcome of one decision: the record to persist, the motion it
/// requests and the warning to report, if any.
#[derive(Clone, Copy, Debug, PartialEq, Eq, Structural)]
pub struct Decision {
    pub status: DoorStatus,
    pub action: DoorAction,
    pub warning: Option<Warning>,
}

/// The record with its override expired if it belongs to another day, and
/// `over_ride_day` stamped with `today`.
pub open spec fn refreshed(s: DoorStatus, today: u16) -> DoorStatus {
    DoorStatus {
        over_ride: if s.over_ride == 1 && s.over_ride_day != today {
            0
        } else {
            s.over_ride
        },
        over_ride_day: today,
        ..s
    }
}

/// Whether an override suppresses automatic decisions on `today`.
pub open spec fn override_active(s: DoorStatus, today: u16) -> bool {
    refreshed(s, today).over_ride == 1
}

/// The motion and warning that a door state calls for under the given
/// daylight, when no override is in force.
pub open spec fn plan(state: DoorState, daylight: bool) -> (DoorAction, Option<Warning>) {
    match state {
        DoorState::Closed => if daylight {
            (DoorAction::Open, None)
        } else {
            (DoorAction::Pass, None)
        },
        DoorState::Open => if daylight {
            (DoorAction::Pass, None)
        } else {
            (DoorAction::Close, None)
        },
        DoorState::Closing => if daylight {
            (DoorAction::Pass, Some(Warning::ShouldHaveOpened))
        } else {
            (DoorAction::Pass, Some(Warning::MotionPending))
        },
        DoorState::Opening => if daylight {
            (DoorAction::Pass, Some(Warning::MotionPending))
        } else {
            (DoorAction::Pass, Some(Warning::ShouldHaveClosed))
        },
        DoorState::Unknown => (DoorAction::Pass, Some(Warning::UnrecognizedState)),
    }
}

/// The record after a motion is requested: the target position set and the
/// motion marked as not yet executed.
pub open spec fn moved(s: DoorStatus, action: DoorAction) -> DoorStatus {
    match action {
        DoorAction::Open => DoorStatus { executed: 0, up: 1, ..s },
        DoorAction::Close => DoorStatus { executed: 0, up: 0, ..s },
        DoorAction::Pass => s,
    }
}

/// The decision taken for record `s` on day `today` under the given daylight.
/// An override in force turns any motion into a pass but keeps the warning.
pub open spec fn spec_decide(s: DoorStatus, daylight: bool, today: u16) -> Decision {
    let base = refreshed(s, today);
    let (action, warning) = plan(s.state(), daylight);
    if base.over_ride == 1 {
        Decision { status: base, action: DoorAction::Pass, warning }
    } else {
        Decision { status: moved(base, action), action, warning }
    }
}

/// Decides the next record from the current one, the daylight and the day
/// of year: an override of another day expires, an override of today
/// suppresses any motion (a flag other than 0 or 1 is no override), and
/// otherwise a closed door opens in daylight and an open door closes in
/// darkness. A door caught mid-motion or in an unrecognized state is left
/// alone with a warning, whether or not an override is in force.
pub fn decide(status: DoorStatus, daylight: bool, today: u16) -> (r: Decision)
    ensures
        r == spec_decide(status, daylight, today),
{
    let mut next = status;
    if next.over_ride == 1 && next.over_ride_day != today {
        next.over_ride = 0;
    }
    next.over_ride_day = today;
    let (action, warning) = match status.door_state() {
        DoorState::Closed => if daylight {
            (DoorAction::Open, None)
        } else {
            (DoorAction::Pass, None)
        },
        DoorState::Open => if daylight {
            (DoorAction::Pass, None)
        } else {
            (DoorAction::Close, None)
        },
        DoorState::Closing => if daylight {
            (DoorAction::Pass, Some(Warning::ShouldHaveOpened))
        } else {
            (DoorAction::Pass, Some(Warning::MotionPending))
        },
        DoorState::Opening => if daylight {
            (DoorAction::Pass, Some(Warning::MotionPending))
        } else {
            (DoorAction::Pass, Some(Warning::ShouldHaveClosed))
        },
        DoorState::Unknown => (DoorAction::Pass, Some(Warning::UnrecognizedState)),
    };
    if next.over_ride == 1 {
        return Decision { status: next, action: DoorAction::Pass, warning };
    }
    match action {
        DoorAction::Open => {
            next.executed = 0;
            next.up = 1;
        },
        DoorAction::Close => {
            next.executed = 0;
            next.up = 0;
        },
        DoorAction::Pass => {},
    }
    Decision { status: next, action, warning }
}

/// The record after one decision per entry of `daylight`, all on day `today`.
pub open spec fn decide_all(s: DoorStatus, daylight: Seq<bool>, today: u16) -> DoorStatus
    decreases daylight.len(),
{
    if daylight.len() == 0 {
        s
    } else {
        decide_all(spec_decide(s, daylight[0], today).status, daylight.drop_first(), today)
    }
}

/// An override set for day `d` holds for any number of decisions on day
/// `d`: the door position and its executed flag never change, and the
/// override stays set.
pub proof fn lemma_override_holds(s: DoorStatus, daylight: Seq<bool>, d: u16)
    requires
        s.over_ride == 1,
        s.over_ride_day == d,
    ensures
        decide_all(s, daylight, d).executed == s.executed,
        decide_all(s, daylight, d).up == s.up,
        decide_all(s, daylight, d).over_ride == 1,
        decide_all(s, daylight, d).over_ride_day == d,
    decreases daylight.len(),
{
    if daylight.len() > 0 {
        lemma_override_holds(spec_decide(s, daylight[0], d).status, daylight.drop_first(), d);
    }
}

/// An override set for day `d` expires on any other day, such as the next
/// one: the decision clears it and is the one taken for the same record
/// without an override.
pub proof fn lemma_override_expires(s: DoorStatus, daylight: bool, d: u16, today: u16)
    requires
        s.over_ride == 1,
        s.over_ride_day == d,
        today != d,
    ensures
        spec_decide(s, daylight, today).status.over_ride == 0,
        spec_decide(s, daylight, today) == spec_decide(
            DoorStatus { over_ride: 0, ..s },
            daylight,
            today,
        ),
{
}

/// Without an override in force, a closed door is asked to open in daylight
/// and an open door to close in darkness; a door that already matches the
/// daylight keeps its position and executed flag. These two are the only
/// cases in which the position or the executed flag changes.
pub proof fn lemma_transitions(s: DoorStatus, daylight: bool, d: u16)
    requires
        !override_active(s, d),
    ensures
        (spec_decide(s, daylight, d).status.executed != s.executed || spec_decide(
            s,
            daylight,
            d,
        ).status.up != s.up) <==> ((s.state() == DoorState::Closed && daylight) || (s.state()
            == DoorState::Open && !daylight)),
        s.state() == DoorState::Closed && daylight ==> {
            let r = spec_decide(s, daylight, d);
            &&& r.status.executed == 0
            &&& r.status.up == 1
            &&& r.action == DoorAction::Open
        },
        s.state() == DoorState::Open && !daylight ==> {
            let r = spec_decide(s, daylight, d);
            &&& r.status.executed == 0
            &&& r.status.up == 0
            &&& r.action == DoorAction::Close
        },
        (s.state() == DoorState::Open && daylight) || (s.state() == DoorState::Closed
            && !daylight) ==> {
            let r = spec_decide(s, daylight, d);
            &&& r.status.executed == s.executed
            &&& r.status.up == s.up
            &&& r.action == DoorAction::Pass
            &&& r.warning is None
        },
{
}

/// A motion that was requested and never confirmed is not requested again:
/// an opening door in daylight and a closing door in darkness pass with a
/// warning and keep their flags, with or without an override.
pub proof fn lemma_no_repeated_motion(s: DoorStatus, daylight: bool, d: u16)
    requires
        (s.state() == DoorState::Opening && daylight) || (s.state() == DoorState::Closing
            && !daylight),
    ensures
        spec_decide(s, daylight, d).action == DoorAction::Pass,
        spec_decide(s, daylight, d).status.executed == s.executed,
        spec_decide(s, daylight, d).status.up == s.up,
        spec_decide(s, daylight, d).warning is Some,
{
}

} // verus!
