use vstd::prelude::*;

verus! {

/// The single persisted record of the door.
///
/// Each field but `over_ride_day` is a flag that should hold 0 or 1:
/// `executed` is 1 once the last requested motion is done, `up` is the
/// target (or actual) position, and `over_ride` suppresses automatic
/// decisions for the day of year `over_ride_day`.
#[derive(Clone, Copy, Debug, PartialEq, Eq, Structural)]
pub struct DoorStatus {
    pub executed: u8,
    pub up: u8,
    pub over_ride: u8,
    pub over_ride_day: u16,
}

/// What the pair (`executed`, `up`) of a record says about the door.
#[derive(Clone, Copy, Debug, PartialEq, Eq, Structural)]
pub enum DoorState {
    Open,
    Closed,
    Opening,
    Closing,
    Unknown,
}

/// The door state that a pair of flags encodes; any flag outside {0, 1}
/// makes it `Unknown`.
pub open spec fn state_of(executed: int, up: int) -> DoorState {
    if executed == 1 && up == 1 {
        DoorState::Open
    } else if executed == 1 && up == 0 {
        DoorState::Closed
    } else if executed == 0 && up == 1 {
        DoorState::Opening
    } else if executed == 0 && up == 0 {
        DoorState::Closing
    } else {
        DoorState::Unknown
    }
}

impl DoorStatus {
    pub open spec fn state(self) -> DoorState {
        state_of(self.executed as int, self.up as int)
    }

    /// Derives the door state from `executed` and `up`.
    pub fn door_state(&self) -> (r: DoorState)
        ensures
            r == self.state(),
            (r == DoorState::Open) <==> (self.executed == 1 && self.up == 1),
            (r == DoorState::Closed) <==> (self.executed == 1 && self.up == 0),
            (r == DoorState::Opening) <==> (self.executed == 0 && self.up == 1),
            (r == DoorState::Closing) <==> (self.executed == 0 && self.up == 0),
            (r == DoorState::Unknown) <==> (self.executed > 1 || self.up > 1),
    {
        if self.executed == 1 && self.up == 1 {
            DoorState::Open
        } else if self.executed == 1 && self.up == 0 {
            DoorState::Closed
        } else if self.executed == 0 && self.up == 1 {
            DoorState::Opening
        } else if self.executed == 0 && self.up == 0 {
            DoorState::Closing
        } else {
            DoorState::Unknown
        }
    }
}

} // verus!
