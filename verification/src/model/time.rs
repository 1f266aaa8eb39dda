//! Instants in time, as nanoseconds since the Unix epoch (UTC).

use vstd::prelude::*;

verus! {

/// An instant, as nanoseconds since 1970-01-01T00:00:00Z.
#[derive(Clone, Copy, Debug, PartialEq, Eq, Structural)]
pub struct Timestamp {
    /// Nanoseconds since the Unix epoch.
    pub nanos: i64,
}

/// The RFC 3339 text that chrono writes for an instant in UTC.
pub uninterp spec fn spec_rfc3339(nanos: i64) -> Seq<char>;

/// The instant that chrono reads from an RFC 3339 text, when it reads one
/// that fits the nanosecond range.
pub uninterp spec fn spec_parse_rfc3339(s: Seq<char>) -> Option<i64>;

/// Calls `std::time::SystemTime::now` and reads it against the Unix
/// epoch with `duration_since(UNIX_EPOCH)`: `(true, n)` when the clock is
/// `n` nanoseconds after the epoch, `(false, n)` when `duration_since`
/// reports it `n` nanoseconds before. The reading depends on the clock,
/// so nothing is promised of it.
#[verifier::external_body]
fn clock_reading() -> (bool, u128) {
    match std::time::SystemTime::now().duration_since(std::time::UNIX_EPOCH) {
        Ok(d) => (true, d.as_nanos()),
        Err(e) => (false, e.duration().as_nanos()),
    }
}

/// Calls `chrono::DateTime::to_rfc3339` on the instant; the text is the
/// named RFC 3339 rendering of the argument. The rendering keeps every
/// nanosecond (`SecondsFormat::AutoSi`) and the `+00:00` offset, so
/// `parse_from_rfc3339` reads the same instant back from it.
#[verifier::external_body]
fn rfc3339_of(nanos: i64) -> (r: String)
    ensures
        r@ == spec_rfc3339(nanos),
        spec_parse_rfc3339(r@) == Some(nanos),
{
    chrono::DateTime::from_timestamp_nanos(nanos).to_rfc3339()
}

/// Calls `chrono::DateTime::parse_from_rfc3339`; the result is the named
/// reading of the argument.
#[verifier::external_body]
fn parse_rfc3339_nanos(s: &str) -> (r: Option<i64>)
    ensures
        r == spec_parse_rfc3339(s@),
{
    chrono::DateTime::parse_from_rfc3339(s).ok().and_then(|d| d.timestamp_nanos_opt())
}

/// The instant of a clock reading `n` nanoseconds after (or, when
/// `after` is false, before) the epoch, saturating at the ends of the
/// representable range.
pub open spec fn spec_instant_of_reading(after: bool, n: u128) -> i64 {
    if after {
        if n <= i64::MAX {
            n as i64
        } else {
            i64::MAX
        }
    } else {
        if n <= i64::MAX {
            (-(n as int)) as i64
        } else {
            i64::MIN
        }
    }
}

impl Timestamp {
    /// The instant of a clock reading `n` nanoseconds after (or before)
    /// the epoch, saturating at the ends of the representable range.
    pub fn of_reading(after: bool, n: u128) -> (t: Timestamp)
        ensures
            t.nanos == spec_instant_of_reading(after, n),
    {
        if after {
            if n <= 9_223_372_036_854_775_807u128 {
                Timestamp { nanos: n as i64 }
            } else {
                Timestamp { nanos: i64::MAX }
            }
        } else {
            if n <= 9_223_372_036_854_775_807u128 {
                let m: i64 = n as i64;
                Timestamp { nanos: -m }
            } else {
                Timestamp { nanos: i64::MIN }
            }
        }
    }

    /// The current instant, as the clock reads it (before the epoch
    /// negative), saturating at the ends of the representable range.
    pub fn now() -> (t: Timestamp)
        ensures
            exists|after: bool, n: u128| t.nanos == spec_instant_of_reading(after, n),
    {
        let (after, n) = clock_reading();
        Timestamp::of_reading(after, n)
    }

    /// The instant written as RFC 3339; reading it back gives the same
    /// instant.
    pub fn to_rfc3339(&self) -> (r: String)
        ensures
            r@ == spec_rfc3339(self.nanos),
            spec_parse_rfc3339(r@) == Some(self.nanos),
    {
        rfc3339_of(self.nanos)
    }

    /// Read an RFC 3339 instant; `None` when the text is not one or the
    /// instant lies outside the nanosecond range.
    pub fn parse_rfc3339(s: &str) -> (r: Option<Timestamp>)
        ensures
            r == (match spec_parse_rfc3339(s@) {
                Some(n) => Some(Timestamp { nanos: n }),
                None => None,
            }),
    {
        match parse_rfc3339_nanos(s) {
            Some(n) => Some(Timestamp { nanos: n }),
            None => None,
        }
    }

    /// Read an RFC 3339 instant, falling back to `fallback` when it cannot
    /// be read.
    pub fn parse_rfc3339_or(s: &str, fallback: Timestamp) -> (r: Timestamp)
        ensures
            r == (match spec_parse_rfc3339(s@) {
                Some(n) => Timestamp { nanos: n },
                None => fallback,
            }),
    {
        match parse_rfc3339_nanos(s) {
            Some(n) => Timestamp { nanos: n },
            None => fallback,
        }
    }
}

} // verus!
