use vstd::prelude::*;

verus! {

/// The latest second that the clock can show: its calendar counts days in 32
/// bits.
pub const CLOCK_LIMIT: i64 = 185_542_587_187_199;

/// What a reading of the clock can be: a second since the epoch that the
/// clock's calendar holds.
pub open spec fn clock_reading(now: int) -> bool {
    0 <= now <= CLOCK_LIMIT
}

/// Reads `chrono::Utc::now()` as seconds since the epoch.
///
/// `now` panics on a clock before the epoch and on a second whose day does
/// not fit the calendar's 32 bits: what it returns lies between the two.
#[verifier::external_body]
fn utc_now() -> (now: i64)
    ensures
        clock_reading(now as int),
{
    chrono::Utc::now().timestamp()
}

/// A second that the clock can show.
#[derive(Clone, Copy, Debug, PartialEq, Eq)]
pub struct Timestamp {
    seconds: i64,
}

impl View for Timestamp {
    type V = int;

    closed spec fn view(&self) -> int {
        self.seconds as int
    }
}

impl Timestamp {
    #[verifier::type_invariant]
    pub open spec fn in_range(self) -> bool {
        clock_reading(self@)
    }

    /// The timestamp of a second, where the clock can show it.
    pub fn new(seconds: i64) -> (r: Option<Timestamp>)
        ensures
            match r {
                Some(t) => clock_reading(seconds as int) && t@ == seconds,
                None => !clock_reading(seconds as int),
            },
    {
        if 0 <= seconds && seconds <= CLOCK_LIMIT {
            Some(Timestamp { seconds })
        } else {
            None
        }
    }

    /// The current time.
    pub fn now() -> (t: Timestamp)
        ensures
            clock_reading(t@),
    {
        let seconds = utc_now();
        Timestamp { seconds }
    }

    /// The second, counted from the epoch.
    pub fn seconds(&self) -> (s: i64)
        ensures
            s == self@,
            clock_reading(s as int),
    {
        proof {
            use_type_invariant(self);
        }
        self.seconds
    }
}

} // verus!
