use vstd::prelude::*;

verus! {

/// A point in time in UTC, kept as a `chrono::DateTime<chrono::Utc>`.
///
/// The verifier does not look inside: all it knows of a value is its
/// `unix_seconds`.
#[verifier::external_body]
#[derive(Debug, PartialEq, Eq)]
pub struct UtcTime {
    inner: chrono::DateTime<chrono::Utc>,
}

/// The Unix timestamp of a point in time: the whole non-leap seconds from
/// 1970-01-01 00:00:00 UTC to it.
pub uninterp spec fn unix_seconds(t: UtcTime) -> int;

impl View for UtcTime {
    type V = int;

    open spec fn view(&self) -> int {
        unix_seconds(*self)
    }
}

/// Calls `chrono::DateTime::from_timestamp` with no sub-second part.
///
/// Trusted: chrono documents that the result round-trips through
/// `DateTime::timestamp`, and returns `None` only outside its range of about
/// 262,000 years around the common era, which 32 bits of seconds stay within.
#[verifier::external_body]
fn datetime_from_timestamp(ts: u32) -> (r: Option<UtcTime>)
    ensures
        r is Some,
        unix_seconds(r->Some_0) == ts as int,
{
    match chrono::DateTime::from_timestamp(i64::from(ts), 0) {
        Some(inner) => Some(UtcTime { inner }),
        None => None,
    }
}

/// Calls `chrono::DateTime::timestamp`.
///
/// Trusted: the result is the value's Unix timestamp.
#[verifier::external_body]
fn datetime_timestamp(t: &UtcTime) -> (s: i64)
    ensures
        s as int == unix_seconds(*t),
{
    t.inner.timestamp()
}

/// Calls `chrono::DateTime::clone`.
///
/// Trusted: the clone is the same point in time.
#[verifier::external_body]
fn datetime_clone(t: &UtcTime) -> (copy: UtcTime)
    ensures
        unix_seconds(copy) == unix_seconds(*t),
{
    UtcTime { inner: t.inner.clone() }
}

impl Clone for UtcTime {
    fn clone(&self) -> (copy: UtcTime)
        ensures
            copy@ == self@,
    {
        datetime_clone(self)
    }
}

/// The point in time `ts` seconds after the Unix epoch.
pub fn dt_from_timestamp(ts: u32) -> (t: UtcTime)
    ensures
        t@ == ts as int,
{
    match datetime_from_timestamp(ts) {
        Some(t) => t,
        None => {
            proof {
                assert(false);
            }
            unreached()
        },
    }
}

impl UtcTime {
    /// The seconds between the Unix epoch and this point in time.
    pub fn timestamp(&self) -> (s: i64)
        ensures
            s as int == self@,
    {
        datetime_timestamp(self)
    }
}

} // verus!
