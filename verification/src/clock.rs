//! Time as the library sees it: whole seconds since the Unix epoch, and
//! spans of whole seconds.

use vstd::prelude::*;

verus! {

/// A span of whole seconds; negative spans point into the past.
#[derive(Debug, Clone, Copy, PartialEq, Eq, Structural)]
pub struct Duration {
    pub seconds: i64,
}

impl Duration {
    pub fn seconds(seconds: i64) -> (span: Duration)
        ensures
            span.seconds == seconds,
    {
        Duration { seconds }
    }

    /// A span of whole minutes, where its seconds fit in 64 bits.
    pub fn minutes(minutes: i64) -> (span: Option<Duration>)
        ensures
            match span {
                Some(d) => d.seconds == minutes * 60,
                None => minutes * 60 < i64::MIN || minutes * 60 > i64::MAX,
            },
    {
        match minutes.checked_mul(60) {
            Some(seconds) => Some(Duration { seconds }),
            None => None,
        }
    }
}

/// The timestamp that `chrono` reaches by adding a span to a timestamp, or
/// `None` where it reaches none.
pub uninterp spec fn shifted_timestamp(start: int, seconds: int) -> Option<int>;

/// Reads the clock through `chrono::Utc::now` and returns its Unix
/// timestamp. `Utc::now` measures the time since the epoch, so the moment
/// is not before it; nothing else is claimed of the value.
#[verifier::external_body]
pub(crate) fn current_timestamp() -> (now: i64)
    ensures
        now >= 0,
{
    chrono::Utc::now().timestamp()
}

/// Adds a span to a timestamp with `chrono::DateTime::checked_add_signed`,
/// after `DateTime::from_timestamp` and `TimeDelta::try_seconds` have made
/// the two operands. Whatever timestamp comes back is the sum; `None` comes
/// back where an operand or the sum is outside the range of `chrono`.
#[verifier::external_body]
pub(crate) fn checked_shift(start: i64, seconds: i64) -> (r: Option<i64>)
    ensures
        match r {
            Some(t) => shifted_timestamp(start as int, seconds as int) == Some(t as int),
            None => shifted_timestamp(start as int, seconds as int) is None,
        },
        r matches Some(t) ==> t == start + seconds,
{
    let from = chrono::DateTime::from_timestamp(start, 0)?;
    let span = chrono::TimeDelta::try_seconds(seconds)?;
    match from.checked_add_signed(span) {
        Some(moment) => Some(moment.timestamp()),
        None => None,
    }
}

/// The current Unix timestamp: a moment that is not before the epoch.
pub fn now() -> (now: i64)
    ensures
        now >= 0,
{
    current_timestamp()
}

/// The timestamp `span` after `start`, where there is one.
pub fn expiry(start: i64, span: Duration) -> (r: Option<i64>)
    ensures
        match r {
            Some(t) => shifted_timestamp(start as int, span.seconds as int) == Some(t as int),
            None => shifted_timestamp(start as int, span.seconds as int) is None,
        },
        r matches Some(t) ==> t == start + span.seconds,
{
    checked_shift(start, span.seconds)
}

} // verus!
