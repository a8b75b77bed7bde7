use vstd::prelude::*;

verus! {

/// Seconds after sunset during which it still counts as daylight.
pub const GRACE_SECONDS: i64 = 1800;

/// Sunrise and sunset of one day, in whole seconds after midnight.
#[derive(Clone, Copy, Debug, PartialEq, Eq, Structural)]
pub struct SunCouplet {
    pub sunrise: i64,
    pub sunset: i64,
}

/// Whether `now` (seconds after midnight) lies strictly after sunrise and
/// strictly before the end of the grace period that follows sunset.
pub open spec fn daylight(now: int, sunrise: int, sunset: int) -> bool {
    sunrise < now && now < sunset + GRACE_SECONDS
}

/// Decides whether the door should be up at `now_seconds` after midnight.
pub fn is_daylight(now_seconds: u32, sunrise: i64, sunset: i64) -> (r: bool)
    ensures
        r == daylight(now_seconds as int, sunrise as int, sunset as int),
{
    let now = now_seconds as i64;
    now > sunrise && now - GRACE_SECONDS < sunset
}

/// The daylight window is open at both ends: neither sunrise itself nor the
/// last instant of the grace period counts as daylight, and every time
/// strictly between them does.
pub proof fn lemma_daylight_window(now: int, sunrise: int, sunset: int)
    ensures
        !daylight(sunrise, sunrise, sunset),
        !daylight(sunset + GRACE_SECONDS, sunrise, sunset),
        sunrise < now < sunset + GRACE_SECONDS ==> daylight(now, sunrise, sunset),
{
}

/// Raised when the almanac has no entry for a day of year.
#[derive(Clone, Copy, Debug, PartialEq, Eq, Structural)]
pub struct ScheduleGap {
    pub ordinal: u32,
}

/// Sun times for each day of the year, the entry of day `d` (counted from
/// 1) standing at position `d - 1`.
#[derive(Debug)]
pub struct Almanac {
    days: Vec<SunCouplet>,
}

impl View for Almanac {
    type V = Seq<SunCouplet>;

    closed spec fn view(&self) -> Seq<SunCouplet> {
        self.days@
    }
}

impl Almanac {
    /// Builds an almanac whose first entry is the first day of the year.
    pub fn new(days: Vec<SunCouplet>) -> (r: Almanac)
        ensures
            r@ == days@,
    {
        Almanac { days }
    }

    /// Number of days that the almanac covers.
    pub fn len(&self) -> (r: usize)
        ensures
            r == self@.len(),
    {
        self.days.len()
    }

    /// The sun times of day `ordinal`, or a gap where the almanac holds no
    /// entry for it (day 0, or a day past its last entry).
    pub fn lookup(&self, ordinal: u32) -> (r: Result<SunCouplet, ScheduleGap>)
        ensures
            r is Ok <==> 1 <= ordinal <= self@.len(),
            r matches Ok(c) ==> c == self@[ordinal - 1],
            r matches Err(e) ==> e == (ScheduleGap { ordinal }),
    {
        if ordinal >= 1 && (ordinal as usize) <= self.days.len() {
            Ok(self.days[ordinal as usize - 1])
        } else {
            Err(ScheduleGap { ordinal })
        }
    }
}

} // verus!
