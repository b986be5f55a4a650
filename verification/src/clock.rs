//! Instants of time, as the frames carry them.
use vstd::prelude::*;

verus! {

/// An instant in UTC: the whole seconds since the Unix epoch, and the
/// nanoseconds past them. During a leap second the nanoseconds run on past one
/// thousand million, so they stay below two thousand million.
///
/// Every `Timestamp` can be told in milliseconds within 64 bits.
#[derive(Clone, Copy, Debug, PartialEq, Eq)]
pub struct Timestamp {
    secs: i64,
    nanos: u32,
}

/// The milliseconds since the epoch of the instant `secs` seconds and `nanos`
/// nanoseconds after it.
pub open spec fn millis_of(secs: int, nanos: int) -> int {
    secs * 1000 + nanos / 1_000_000
}

/// Whether seconds and nanoseconds make a `Timestamp`.
pub open spec fn is_instant(secs: int, nanos: int) -> bool {
    &&& 0 <= nanos < 2_000_000_000
    &&& i64::MIN <= millis_of(secs, nanos) <= i64::MAX
}

impl Timestamp {
    #[verifier::type_invariant]
    spec fn inv(self) -> bool {
        is_instant(self.secs as int, self.nanos as int)
    }

    /// The whole seconds since the epoch.
    pub closed spec fn spec_secs(&self) -> int {
        self.secs as int
    }

    /// The nanoseconds past the whole second.
    pub closed spec fn spec_nanos(&self) -> int {
        self.nanos as int
    }

    /// The instant in milliseconds since the epoch.
    pub open spec fn spec_millis(&self) -> int {
        millis_of(self.spec_secs(), self.spec_nanos())
    }

    /// The instant `secs` seconds and `nanos` nanoseconds after the epoch, if
    /// that is one.
    pub fn new(secs: i64, nanos: u32) -> (r: Option<Timestamp>)
        ensures
            r is Some <==> is_instant(secs as int, nanos as int),
            r matches Some(t) ==> t.spec_secs() == secs && t.spec_nanos() == nanos,
    {
        if nanos >= 2_000_000_000 {
            return None;
        }
        let millis: i128 = (secs as i128) * 1000 + (nanos / 1_000_000) as i128;
        if millis > i64::MAX as i128 || millis < i64::MIN as i128 {
            return None;
        }
        Some(Timestamp { secs, nanos })
    }

    /// The epoch itself.
    pub fn epoch() -> (t: Timestamp)
        ensures
            t.spec_secs() == 0,
            t.spec_nanos() == 0,
    {
        Timestamp { secs: 0, nanos: 0 }
    }

    /// The instant `millis` milliseconds after the epoch.
    pub fn from_millis(millis: i64) -> (t: Timestamp)
        ensures
            t.spec_secs() == millis as int / 1000,
            t.spec_nanos() == (millis as int % 1000) * 1_000_000,
            t.spec_millis() == millis,
    {
        let q: i64 = millis / 1000;
        let r: i64 = millis % 1000;
        let (secs, rem): (i64, i64) = if r < 0 { (q - 1, r + 1000) } else { (q, r) };
        assert(secs == millis as int / 1000 && rem == millis as int % 1000);
        let nanos: u32 = (rem as u32) * 1_000_000;
        Timestamp { secs, nanos }
    }

    /// The whole seconds since the epoch.
    pub fn secs(&self) -> (r: i64)
        ensures
            r == self.spec_secs(),
    {
        self.secs
    }

    /// The nanoseconds past the whole second.
    pub fn nanos(&self) -> (r: u32)
        ensures
            r == self.spec_nanos(),
            r < 2_000_000_000,
    {
        proof {
            use_type_invariant(self);
        }
        self.nanos
    }

    /// The instant in milliseconds since the epoch.
    pub fn timestamp_millis(&self) -> (r: i64)
        ensures
            r == self.spec_millis(),
    {
        proof {
            use_type_invariant(self);
        }
        let millis: i128 = (self.secs as i128) * 1000 + (self.nanos / 1_000_000) as i128;
        millis as i64
    }
}

} // verus!
