//! Instants on the UTC time line, held as plain integers.

use vstd::prelude::*;

verus! {

/// Nanoseconds in one second.
pub const NANOS_PER_SECOND: u32 = 1_000_000_000;

/// Seconds from the Unix epoch to the earliest instant that
/// `chrono::DateTime<Utc>` can hold: midnight on 1 January of the year -262143.
pub const MIN_SECONDS: i64 = -8_334_601_228_800;

/// Seconds from the Unix epoch to the last second that
/// `chrono::DateTime<Utc>` can hold: 23:59:59 on 31 December of the year 262142.
pub const MAX_SECONDS: i64 = 8_210_266_876_799;

/// Whether `secs` whole seconds since the Unix epoch plus `nanos` nanoseconds
/// name an instant that a [`Timestamp`] can hold. Leap-second notation
/// (a nanosecond part of a full second or more) is left out.
pub open spec fn representable(secs: int, nanos: int) -> bool {
    MIN_SECONDS <= secs <= MAX_SECONDS && 0 <= nanos < NANOS_PER_SECOND
}

/// The instant `secs` seconds and `nanos` nanoseconds after the Unix epoch,
/// as a count of nanoseconds.
pub open spec fn instant(secs: int, nanos: int) -> int {
    secs * NANOS_PER_SECOND + nanos
}

/// The whole seconds before the instant `at`, counted from the Unix epoch.
pub open spec fn seconds_of(at: int) -> int {
    at / (NANOS_PER_SECOND as int)
}

/// The nanoseconds of the instant `at` past its last whole second.
pub open spec fn subsec_nanos_of(at: int) -> int {
    at % (NANOS_PER_SECOND as int)
}

/// A span of `nanos` nanoseconds in whole seconds, rounded toward zero.
pub open spec fn whole_seconds(nanos: int) -> int {
    if nanos >= 0 {
        nanos / (NANOS_PER_SECOND as int)
    } else {
        -((-nanos) / (NANOS_PER_SECOND as int))
    }
}

/// The RFC 3339 text that chrono writes for the UTC instant `secs` seconds
/// and `nanos` nanoseconds after the Unix epoch.
pub uninterp spec fn rfc3339_text(secs: int, nanos: int) -> Seq<char>;

/// The RFC 3339 text of the instant `at`.
pub open spec fn rfc3339_of(at: int) -> Seq<char> {
    rfc3339_text(seconds_of(at), subsec_nanos_of(at))
}

/// A UTC instant with nanosecond precision, within the range of
/// `chrono::DateTime<Utc>`.
///
/// Its view is the number of nanoseconds since the Unix epoch.
#[derive(Clone, Copy, Debug, PartialEq, Eq)]
pub struct Timestamp {
    secs: i64,
    nanos: u32,
}

impl View for Timestamp {
    type V = int;

    closed spec fn view(&self) -> int {
        instant(self.secs as int, self.nanos as int)
    }
}

/// Calls `chrono::DateTime::from_timestamp` on each pair, subtracts the first
/// instant from the second (`DateTime - DateTime`, which is
/// `signed_duration_since`) and takes `TimeDelta::num_seconds` of the
/// difference. The contract claims that chrono builds both instants when the
/// pairs are representable, and that the result is the difference in
/// nanoseconds divided by one second and rounded toward zero.
#[verifier::external_body]
fn chrono_seconds_between(start_secs: i64, start_nanos: u32, end_secs: i64, end_nanos: u32) -> (d: i64)
    requires
        representable(start_secs as int, start_nanos as int),
        representable(end_secs as int, end_nanos as int),
    ensures
        d == whole_seconds(
            instant(end_secs as int, end_nanos as int) - instant(start_secs as int, start_nanos as int),
        ),
{
    let start = chrono::DateTime::from_timestamp(start_secs, start_nanos).unwrap();
    let end = chrono::DateTime::from_timestamp(end_secs, end_nanos).unwrap();
    (end - start).num_seconds()
}

/// Calls `chrono::DateTime::from_timestamp` and then `DateTime::to_rfc3339`.
/// The contract claims that chrono builds the instant when the pair is
/// representable, and gives the text it writes the name [`rfc3339_text`]:
/// the text depends on the two numbers alone.
#[verifier::external_body]
fn chrono_rfc3339(secs: i64, nanos: u32) -> (text: String)
    requires
        representable(secs as int, nanos as int),
    ensures
        text@ == rfc3339_text(secs as int, nanos as int),
{
    chrono::DateTime::from_timestamp(secs, nanos).unwrap().to_rfc3339()
}

impl Timestamp {
    #[verifier::type_invariant]
    spec fn in_range(self) -> bool {
        representable(self.secs as int, self.nanos as int)
    }

    /// The instant `secs` seconds and `nanos` nanoseconds after the Unix
    /// epoch, or `None` where that pair is not representable.
    pub fn new(secs: i64, nanos: u32) -> (made: Option<Timestamp>)
        ensures
            made is Some <==> representable(secs as int, nanos as int),
            made matches Some(t) ==> t@ == instant(secs as int, nanos as int),
    {
        if MIN_SECONDS <= secs && secs <= MAX_SECONDS && nanos < NANOS_PER_SECOND {
            Some(Timestamp { secs, nanos })
        } else {
            None
        }
    }

    /// Whole seconds from the Unix epoch to this instant, rounded down.
    pub fn seconds(&self) -> (secs: i64)
        ensures
            secs == seconds_of(self@),
            MIN_SECONDS <= secs <= MAX_SECONDS,
    {
        proof {
            use_type_invariant(self);
        }
        self.secs
    }

    /// Nanoseconds of this instant past its last whole second.
    pub fn subsec_nanos(&self) -> (nanos: u32)
        ensures
            nanos == subsec_nanos_of(self@),
            nanos < NANOS_PER_SECOND,
    {
        proof {
            use_type_invariant(self);
        }
        self.nanos
    }

    /// The time from `earlier` to this instant in whole seconds, rounded
    /// toward zero; negative where `earlier` is the later of the two.
    pub fn whole_seconds_since(&self, earlier: &Timestamp) -> (d: i64)
        ensures
            d == whole_seconds(self@ - earlier@),
    {
        proof {
            use_type_invariant(self);
            use_type_invariant(earlier);
        }
        chrono_seconds_between(earlier.secs, earlier.nanos, self.secs, self.nanos)
    }

    /// This instant as RFC 3339 text.
    pub fn to_rfc3339(&self) -> (text: String)
        ensures
            text@ == rfc3339_of(self@),
    {
        proof {
            use_type_invariant(self);
        }
        chrono_rfc3339(self.secs, self.nanos)
    }
}

} // verus!
