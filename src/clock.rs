//! Time: the watermark each cycle queries from, as RFC 3339 text.

use vstd::prelude::*;

verus! {

/// The RFC 3339 text (UTC, `+00:00`) of the instant `secs` seconds and
/// `nanos` nanoseconds after the Unix epoch.
pub uninterp spec fn rfc3339_of(secs: int, nanos: int) -> Seq<char>;

/// The first second of the year 10000, past every instant this library
/// formats with a guarantee.
pub const YEAR_10000_SECS: i64 = 253402300800;

/// The largest number of minutes whose seconds fit an `i64`.
pub const MAX_SINCE_MINUTES: u64 = 153722867280912930;

/// Relies on chrono's `Utc::now` with `DateTime::timestamp` and
/// `DateTime::timestamp_subsec_nanos`: the system time as seconds after the
/// epoch and the nanoseconds within that second.
#[verifier::external_body]
fn clock_now() -> (r: (i64, u32))
    ensures
        r.0 >= 0,
        r.1 < 1_000_000_000,
{
    let now = chrono::Utc::now();
    (now.timestamp(), now.timestamp_subsec_nanos())
}

/// Relies on chrono's `DateTime::from_timestamp` and `DateTime::to_rfc3339`:
/// the instant's RFC 3339 text, or `None` where chrono cannot represent it,
/// which never happens within the years 1970 to 9999.
#[verifier::external_body]
fn rfc3339_utc(secs: i64, nanos: u32) -> (r: Option<String>)
    ensures
        r matches Some(t) ==> t@ == rfc3339_of(secs as int, nanos as int),
        0 <= secs < YEAR_10000_SECS && nanos < 1_000_000_000 ==> r is Some,
{
    match chrono::DateTime::from_timestamp(secs, nanos) {
        Some(d) => Some(d.to_rfc3339()),
        None => None,
    }
}

/// The instant `since_minutes` minutes before `now_secs` seconds and
/// `now_nanos` nanoseconds, as RFC 3339 text; `None` where it lies outside
/// what can be represented.
pub fn watermark_at(now_secs: i64, now_nanos: u32, since_minutes: u64) -> (r: Option<String>)
    ensures
        r matches Some(t) ==> t@ == rfc3339_of(now_secs - 60 * since_minutes, now_nanos as int),
        now_secs - 60 * since_minutes < i64::MIN ==> r is None,
        0 <= now_secs - 60 * since_minutes && now_secs < YEAR_10000_SECS && now_nanos
            < 1_000_000_000 ==> r is Some,
{
    if since_minutes > MAX_SINCE_MINUTES {
        return None;
    }
    let back = (since_minutes * 60) as i64;
    if now_secs < i64::MIN + back {
        return None;
    }
    rfc3339_utc(now_secs - back, now_nanos)
}

/// The watermark of a cycle starting now: `since_minutes` minutes ago.
pub fn current_watermark(since_minutes: u64) -> (r: Option<String>)
    ensures
        r matches Some(t) ==> exists|secs: int, nanos: int|
            #![trigger rfc3339_of(secs, nanos)]
            secs >= -60 * since_minutes && 0 <= nanos < 1_000_000_000 && t@ == rfc3339_of(
                secs,
                nanos,
            ),
{
    let (secs, nanos) = clock_now();
    let r = watermark_at(secs, nanos, since_minutes);
    if let Some(t) = &r {
        assert(t@ == rfc3339_of(secs - 60 * since_minutes, nanos as int));
    }
    r
}

} // verus!
