//! Unix-second timestamps.
//!
//! The API carries every date/time value as whole seconds since the Unix
//! epoch, and that is exactly what a [`Timestamp`] holds. Calendar rendering
//! and the current time come from the `chrono` crate through trusted
//! wrappers; all other behavior is plain integer logic.

use vstd::prelude::*;

verus! {

/// A point in time, in whole seconds since the Unix epoch.
#[derive(Debug, Clone, Copy, PartialEq, Eq, Hash, PartialOrd, Ord, Structural)]
pub struct Timestamp(pub i64);

/// The RFC 3339 rendering of a Unix-second timestamp in UTC: a function of
/// the seconds alone.
pub uninterp spec fn spec_rfc3339_utc(secs: i64) -> Seq<char>;

/// Relies on chrono's `DateTime::from_timestamp` and `to_rfc3339`: the
/// rendering is a function of the seconds alone, and only a timestamp
/// outside chrono's representable calendar range has no rendering.
#[verifier::external_body]
fn rfc3339_of_unix(secs: i64) -> (r: Option<String>)
    ensures
        r matches Some(s) ==> s@ == spec_rfc3339_utc(secs),
{
    chrono::DateTime::from_timestamp(secs, 0).map(|dt| dt.to_rfc3339())
}

/// Relies on chrono's `Utc::now`: nothing is promised of the clock's value.
#[verifier::external_body]
fn unix_seconds_now() -> i64 {
    chrono::Utc::now().timestamp()
}

impl Timestamp {
    /// The timestamp for the given seconds since the Unix epoch.
    pub fn from_unix(seconds: i64) -> (r: Self)
        ensures
            r == Timestamp(seconds),
    {
        Timestamp(seconds)
    }

    /// The current time, to the second.
    pub fn now() -> Self {
        Timestamp(unix_seconds_now())
    }

    /// The seconds since the Unix epoch.
    pub fn as_unix(&self) -> (r: i64)
        ensures
            r == self.0,
    {
        self.0
    }

    /// The RFC 3339 rendering in UTC; absent only for a timestamp outside
    /// the representable calendar range.
    pub fn to_rfc3339(&self) -> (r: Option<String>)
        ensures
            r matches Some(s) ==> s@ == spec_rfc3339_utc(self.0),
    {
        rfc3339_of_unix(self.0)
    }
}

} // verus!
