use vstd::prelude::*;

verus! {

/// The text that chrono renders for a UTC timestamp of `secs` seconds —
/// "2015-05-15 00:00:00" — or nothing when the timestamp lies outside
/// chrono's representable range. A pure function of the seconds.
pub uninterp spec fn datetime_text_of(secs: i64) -> Seq<char>;

/// Relies on chrono's `Utc::now`: the current wall-clock time in
/// milliseconds since the Unix epoch. Nothing can be promised of a clock
/// reading. `Utc::now` itself aborts on a system clock standing before the
/// epoch, so this wrapper shares that limit.
#[verifier::external_body]
pub fn now_millis() -> (r: i64) {
    chrono::Utc::now().timestamp_millis()
}

/// Relies on chrono's `DateTime::<Utc>::from_timestamp` and the rendering of
/// its naive form, which depend on the seconds alone; an out-of-range
/// timestamp renders as the empty string.
#[verifier::external_body]
pub fn datetime_text(secs: i64) -> (r: String)
    ensures
        r@ == datetime_text_of(secs),
{
    match chrono::DateTime::<chrono::Utc>::from_timestamp(secs, 0) {
        Some(dt) => dt.naive_utc().to_string(),
        None => String::new(),
    }
}

/// Relies on chrono's `NaiveDateTime::parse_from_str` with the fixed format
/// `%Y-%m-%d %H:%M:%S`, and on the machine's local time zone to place the
/// parsed wall-clock time on the Unix time line. The zone makes the value
/// machine-dependent, so nothing is promised of it; `None` stands for text
/// that does not parse or for a wall-clock time the zone never shows.
#[verifier::external_body]
pub fn parse_local_datetime_millis(s: &str) -> (r: Option<i64>) {
    match chrono::NaiveDateTime::parse_from_str(s, "%Y-%m-%d %H:%M:%S") {
        Ok(naive) => match chrono::TimeZone::from_local_datetime(&chrono::Local, &naive).earliest()
        {
            Some(local) => Some(
                chrono::DateTime::<chrono::Utc>::from(local).timestamp_millis(),
            ),
            None => None,
        },
        Err(_) => None,
    }
}

} // verus!
