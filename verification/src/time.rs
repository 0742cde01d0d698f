use vstd::prelude::*;

verus! {

pub uninterp spec fn rfc3339_opt(ts: i64) -> Option<Seq<char>>;

/// A bound well inside the range that chrono accepts: timestamps within
/// it are always rendered.
pub open spec fn renderable(ts: i64) -> bool {
    -8000000000000000000 <= ts <= 8000000000000000000
}

/// The date-time text of a timestamp in microseconds since the Unix epoch,
/// or the empty text where the timestamp lies outside the representable
/// range of dates.
pub open spec fn timestamp_text(ts: i64) -> Seq<char> {
    match rfc3339_opt(ts) {
        Some(t) => t,
        None => Seq::<char>::empty(),
    }
}

/// Relies on chrono::Utc::now: the current reading of the system clock, in
/// microseconds since the Unix epoch. Nothing is assumed of the value.
#[verifier::external_body]
pub(crate) fn now_micros() -> i64 {
    chrono::Utc::now().timestamp_micros()
}

/// Relies on chrono::DateTime::<Utc>::from_timestamp_micros, which returns
/// Some exactly for dates within about 262,000 years of the common era,
/// and on DateTime::to_rfc3339_opts with fixed microsecond precision and a
/// `Z` offset, whose text depends on the timestamp alone.
#[verifier::external_body]
fn to_rfc3339(ts: i64) -> (r: Option<String>)
    ensures
        (match r {
            Some(s) => rfc3339_opt(ts) == Some(s@),
            None => rfc3339_opt(ts) is None,
        }),
        renderable(ts) ==> r is Some,
{
    match chrono::DateTime::<chrono::Utc>::from_timestamp_micros(ts) {
        Some(dt) => Some(dt.to_rfc3339_opts(chrono::SecondsFormat::Micros, true)),
        None => None,
    }
}

/// The text a timestamp is listed under: its date-time form, or the empty
/// text for the few timestamps that denote no representable date.
pub fn timestamp_display(ts: i64) -> (r: String)
    ensures
        r@ == timestamp_text(ts),
        renderable(ts) ==> rfc3339_opt(ts) is Some,
{
    match to_rfc3339(ts) {
        Some(s) => s,
        None => String::new(),
    }
}

} // verus!
