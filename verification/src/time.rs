//! Points in time.
use vstd::prelude::*;

verus! {

/// A point in time: seconds since the start of 1970, and nanoseconds on top.
#[derive(Clone, Copy, Debug, PartialEq, Eq, Structural)]
pub struct Timestamp {
    pub seconds: i64,
    pub nanos: u32,
}

impl Timestamp {
    /// The nanoseconds since the start of 1970. A leap second, which has a thousand million
    /// nanoseconds or more on top, counts as the last nanosecond of the second before it.
    pub open spec fn instant(self) -> int {
        self.seconds * 1_000_000_000 + if self.nanos > 999_999_999 {
            999_999_999
        } else {
            self.nanos as int
        }
    }

    /// Whether a clock can say so: no time before 1970, and no leap second.
    pub open spec fn is_clock_time(self) -> bool {
        self.seconds >= 0 && self.nanos < 1_000_000_000
    }

    /// The nanoseconds since the start of 1970, as above.
    pub fn to_instant(&self) -> (r: i128)
        ensures
            r == self.instant(),
    {
        let nanos: i128 = if self.nanos > 999_999_999 {
            999_999_999
        } else {
            self.nanos as i128
        };
        self.seconds as i128 * 1_000_000_000 + nanos
    }
}

/// The current time, by `chrono::Utc::now`. It is whatever the clock of the machine says, but no
/// time before 1970 and no leap second.
#[verifier::external_body]
pub(crate) fn now() -> (r: Timestamp)
    ensures
        r.is_clock_time(),
{
    let now = chrono::Utc::now();
    Timestamp { seconds: now.timestamp(), nanos: now.timestamp_subsec_nanos() }
}

} // verus!
