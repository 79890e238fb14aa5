//! The calendar label of an instant, for synthesised draft file names.
//! Turning milliseconds since the epoch into a year-month-day-time label is
//! the calendar library's work; its result is a pure function of the
//! instant, named here and otherwise opaque.

use vstd::prelude::*;

verus! {

/// Clocks handed to the application stay below this bound (the last
/// millisecond of year 9999), so the calendar conversion below never fails.
pub const MAX_CLOCK_MS: u64 = 253402300799999;

/// The `%Y-%m-%d-%H%M%S` label of the instant `ms` milliseconds after the
/// epoch: a pure function of the instant, computed by the calendar library.
pub uninterp spec fn timestamp_label(ms: u64) -> Seq<char>;

/// Relies on chrono's `DateTime::from_timestamp_millis` and `format`: the
/// label is computed from the millisecond timestamp alone, and the
/// conversion returns a date for every instant up to year 9999.
#[verifier::external_body]
pub(crate) fn format_timestamp(ms: u64) -> (r: String)
    requires
        ms <= MAX_CLOCK_MS,
    ensures
        r@ == timestamp_label(ms),
{
    let dt = chrono::DateTime::<chrono::Utc>::from_timestamp_millis(ms as i64).unwrap();
    dt.format("%Y-%m-%d-%H%M%S").to_string()
}

} // verus!
