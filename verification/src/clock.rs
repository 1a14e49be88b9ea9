//! Wall-clock time, read and rendered by the `chrono` crate. Instants are
//! carried through the library as nanoseconds since the UNIX epoch (UTC).
use vstd::prelude::*;

verus! {

/// The RFC 3339 rendering that `chrono` gives an instant.
pub uninterp spec fn spec_rfc3339(nanos: i64) -> Seq<char>;

/// The current instant in nanoseconds since the epoch, from
/// `chrono::Utc::now().timestamp_nanos_opt()`. The value depends on the
/// clock, so nothing is claimed of it; `None` stands for an instant that
/// nanoseconds in an `i64` cannot hold (after the year 2262). `Utc::now`
/// panics when the system clock reads a time before 1970, which is the
/// machine's state and no input of the call.
#[verifier::external_body]
pub(crate) fn clock_nanos() -> (r: Option<i64>) {
    chrono::Utc::now().timestamp_nanos_opt()
}

/// The current instant, saturating at the largest representable instant.
pub fn now_nanos() -> i64 {
    match clock_nanos() {
        Some(t) => t,
        None => i64::MAX,
    }
}

/// RFC 3339 rendering of an instant, from
/// `chrono::DateTime::from_timestamp_nanos(nanos).to_rfc3339()`.
/// Claims only that the text is the named function of the instant
/// (`from_timestamp_nanos` is total on `i64`).
#[verifier::external_body]
pub(crate) fn rfc3339(nanos: i64) -> (s: String)
    ensures
        s@ == spec_rfc3339(nanos),
{
    chrono::DateTime::from_timestamp_nanos(nanos).to_rfc3339()
}

/// Whole seconds elapsed from `since` to `now`, never negative.
pub fn elapsed_secs(since: i64, now: i64) -> (r: u64)
    ensures
        r == (if now <= since { 0 } else { ((now - since) / 1_000_000_000) as u64 }),
{
    if now <= since {
        0
    } else {
        let d = (now as i128 - since as i128) as u128;
        (d / 1_000_000_000) as u64
    }
}

} // verus!
