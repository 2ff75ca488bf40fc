//! The wall clock, and the fixed human-readable rendering of timestamps.
use vstd::prelude::*;

verus! {

/// The text the timestamp renderer produces for `t` seconds since the Unix
/// epoch: the UTC civil time in the pattern `%Y-%m-%d %H:%M:%S`.
pub uninterp spec fn ts_display(t: i64) -> Seq<char>;

/// Relies on chrono's `Utc::now` and `DateTime::timestamp`: the current
/// time as seconds since the Unix epoch. The value depends on the wall
/// clock, so nothing is assumed of it.
#[verifier::external_body]
pub(crate) fn now_unix() -> i64 {
    chrono::Utc::now().timestamp()
}

/// Relies on chrono's `DateTime::from_timestamp` and `format`: the rendered
/// text is a function of the timestamp alone (the pattern uses no locale
/// and the zone is fixed to UTC). Seconds outside chrono's representable
/// range render as the empty string.
#[verifier::external_body]
pub(crate) fn format_timestamp(t: i64) -> (r: String)
    ensures
        r@ == ts_display(t),
{
    match chrono::DateTime::<chrono::Utc>::from_timestamp(t, 0) {
        Some(d) => d.format("%Y-%m-%d %H:%M:%S").to_string(),
        None => String::new(),
    }
}

} // verus!
