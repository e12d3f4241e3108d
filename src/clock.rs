//! The wall clock, read as microseconds since the Unix epoch (UTC).
use vstd::prelude::*;

verus! {

/// How chrono writes the naive UTC date and time of an instant given in
/// microseconds, or `None` where chrono cannot represent the instant.
pub uninterp spec fn naive_datetime_text(micros: i64) -> Option<Seq<char>>;

/// Relies on `chrono::Utc::now` and `DateTime::timestamp_micros`: the current
/// instant. Nothing is known of its value.
#[verifier::external_body]
pub(crate) fn now_micros() -> (r: i64) {
    chrono::Utc::now().timestamp_micros()
}

/// Relies on `chrono::DateTime::from_timestamp_micros` and the `Display` of
/// `NaiveDateTime`: the text depends on the instant alone.
#[verifier::external_body]
pub(crate) fn datetime_text(micros: i64) -> (r: Option<String>)
    ensures
        r is Some <==> naive_datetime_text(micros) is Some,
        r is Some ==> r->Some_0@ == naive_datetime_text(micros)->Some_0,
{
    chrono::DateTime::from_timestamp_micros(micros).map(|d| d.naive_utc().to_string())
}

} // verus!
