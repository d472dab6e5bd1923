use vstd::prelude::*;

verus! {

/// An instant on the UTC time line, held as nanoseconds since the Unix epoch.
#[derive(Clone, Copy, Debug, PartialEq, Eq, Structural)]
pub struct Timestamp {
    pub unix_nanos: i128,
}

impl View for Timestamp {
    type V = int;

    open spec fn view(&self) -> int {
        self.unix_nanos as int
    }
}

/// The later of two instants: the time a record carries after a refresh at
/// `now`, so that a clock that steps back never moves a record back in time.
pub open spec fn refreshed(prev: int, now: int) -> int {
    if now > prev {
        now
    } else {
        prev
    }
}

impl Timestamp {
    pub fn from_unix_nanos(unix_nanos: i128) -> (r: Timestamp)
        ensures
            r@ == unix_nanos as int,
    {
        Timestamp { unix_nanos }
    }

    /// The instant a record holds after being refreshed at `now`.
    pub fn refreshed_at(self, now: Timestamp) -> (r: Timestamp)
        ensures
            r@ == refreshed(self@, now@),
            r@ >= self@,
    {
        if now.unix_nanos > self.unix_nanos {
            now
        } else {
            self
        }
    }
}

/// Relies on time::OffsetDateTime::now_utc and unix_timestamp_nanos: reads the
/// system clock. Nothing is promised of the reading.
#[verifier::external_body]
pub(crate) fn now_utc() -> (r: Timestamp) {
    Timestamp { unix_nanos: time::OffsetDateTime::now_utc().unix_timestamp_nanos() }
}

} // verus!
