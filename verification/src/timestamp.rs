//! The timestamp model: a nanosecond-resolution instant in the atomic time
//! domain, with a distinguished "no timestamp" value and fail-soft
//! conversions from the wall-clock (Unix) and network-time domains.

use vstd::prelude::*;

verus! {

/// Whole seconds between the network-time epoch (1900-01-01) and the Unix
/// epoch (1970-01-01).
pub const UNIX_TO_NTP_SECONDS: u64 = 2_208_988_800;

/// Nanoseconds in one second.
pub const NANOSECONDS_PER_SECOND: u64 = 1_000_000_000;

/// Accumulated leap-second offset, in seconds, between the Unix domain
/// (which skips leap seconds) and the atomic domain (which counts them).
pub const LEAP_SECONDS: u64 = 37;

/// An instant: a count of nanoseconds since the atomic-time epoch
/// 1970-01-01 00:00:00, or none when no timestamp is known.
#[derive(Clone, Copy, Debug)]
pub struct PravegaTimestamp {
    pub nanos: Option<u64>,
}

/// The atomic-domain value of a Unix-domain nanosecond count: the leap-second
/// offset is added; an input too large for the domain yields no instant.
pub open spec fn unix_to_tai(n: u64) -> Option<u64> {
    if n + LEAP_SECONDS * NANOSECONDS_PER_SECOND <= u64::MAX {
        Some((n + LEAP_SECONDS * NANOSECONDS_PER_SECOND) as u64)
    } else {
        None
    }
}

/// The atomic-domain value of a network-time-domain nanosecond count: the
/// epoch offset is subtracted, then the Unix conversion applies; an input
/// before the Unix epoch yields no instant.
pub open spec fn ntp_to_tai(n: u64) -> Option<u64> {
    if n >= UNIX_TO_NTP_SECONDS * NANOSECONDS_PER_SECOND {
        unix_to_tai((n - UNIX_TO_NTP_SECONDS * NANOSECONDS_PER_SECOND) as u64)
    } else {
        None
    }
}

impl PravegaTimestamp {
    /// The instant with no timestamp.
    pub fn none() -> (r: Self)
        ensures
            r.nanos is None,
    {
        PravegaTimestamp { nanos: None }
    }

    /// An instant taken directly from the atomic domain: the identity
    /// conversion, with absence kept.
    pub fn from_nanoseconds(n: Option<u64>) -> (r: Self)
        ensures
            r.nanos == n,
    {
        PravegaTimestamp { nanos: n }
    }

    /// An instant converted from the Unix domain; out-of-range or absent
    /// inputs yield the "none" instant, never an error.
    pub fn from_unix_nanoseconds(n: Option<u64>) -> (r: Self)
        ensures
            r.nanos == match n {
                Some(x) => unix_to_tai(x),
                None => None::<u64>,
            },
    {
        match n {
            Some(x) => {
                match x.checked_add(LEAP_SECONDS * NANOSECONDS_PER_SECOND) {
                    Some(t) => PravegaTimestamp { nanos: Some(t) },
                    None => PravegaTimestamp { nanos: None },
                }
            },
            None => PravegaTimestamp { nanos: None },
        }
    }

    /// An instant converted from the network-time domain; out-of-range or
    /// absent inputs yield the "none" instant, never an error.
    pub fn from_ntp_nanoseconds(n: Option<u64>) -> (r: Self)
        ensures
            r.nanos == match n {
                Some(x) => ntp_to_tai(x),
                None => None::<u64>,
            },
    {
        match n {
            Some(x) => {
                if x >= UNIX_TO_NTP_SECONDS * NANOSECONDS_PER_SECOND {
                    Self::from_unix_nanoseconds(Some(x - UNIX_TO_NTP_SECONDS * NANOSECONDS_PER_SECOND))
                } else {
                    PravegaTimestamp { nanos: None }
                }
            },
            None => PravegaTimestamp { nanos: None },
        }
    }

    /// The nanosecond count of the instant, or none.
    pub fn nanoseconds(&self) -> (r: Option<u64>)
        ensures
            r == self.nanos,
    {
        self.nanos
    }

    /// Whether the instant carries a timestamp.
    pub fn is_some(&self) -> (r: bool)
        ensures
            r == (self.nanos is Some),
    {
        self.nanos.is_some()
    }

    /// Whether the instant is the "no timestamp" value.
    pub fn is_none(&self) -> (r: bool)
        ensures
            r == (self.nanos is None),
    {
        self.nanos.is_none()
    }

    /// The instant moved forward by a duration of `d` nanoseconds, saturating
    /// at the end of the representable range; absence is kept.
    pub fn saturating_add_nanos(&self, d: u64) -> (r: Self)
        ensures
            r.nanos == match self.nanos {
                Some(x) => Some(if x + d <= u64::MAX { (x + d) as u64 } else { u64::MAX }),
                None => None::<u64>,
            },
    {
        match self.nanos {
            Some(x) => PravegaTimestamp { nanos: Some(x.saturating_add(d)) },
            None => PravegaTimestamp { nanos: None },
        }
    }

    /// Whether `self` lies before `other`: comparison is defined only
    /// between two real instants; a caller holding a possibly absent one
    /// guards it explicitly.
    pub fn before(&self, other: &Self) -> (r: bool)
        requires
            self.nanos is Some,
            other.nanos is Some,
        ensures
            r == (self.nanos->0 < other.nanos->0),
    {
        let a = match self.nanos {
            Some(x) => x,
            None => 0,
        };
        let b = match other.nanos {
            Some(x) => x,
            None => 0,
        };
        a < b
    }

    /// The duration, in nanoseconds, from `other` to `self`: defined only
    /// between two real instants, and saturating at zero when `other` is the
    /// later of the two.
    pub fn saturating_sub_nanos(&self, other: &Self) -> (r: u64)
        requires
            self.nanos is Some,
            other.nanos is Some,
        ensures
            r == if self.nanos->0 >= other.nanos->0 {
                self.nanos->0 - other.nanos->0
            } else {
                0
            },
    {
        let a = match self.nanos {
            Some(x) => x,
            None => 0,
        };
        let b = match other.nanos {
            Some(x) => x,
            None => 0,
        };
        a.saturating_sub(b)
    }
}

} // verus!
