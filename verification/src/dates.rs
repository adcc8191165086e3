use vstd::prelude::*;

verus! {

/// The canonical UTC output format: `YYYY-MM-DD HH:MM:SS.mmm`.
pub const OUTPUT_DATE_FORMAT_UTC: &'static str = "%Y-%m-%d %H:%M:%S.%3f";

/// The canonical UTC text of the instant `millis` milliseconds after the
/// unix epoch, under the format above.
pub uninterp spec fn utc_datetime_str(millis: i64) -> Seq<char>;

/// What parsing an RFC 2822 date yields: the unix-epoch milliseconds and the
/// canonical UTC text, or nothing when the text does not parse.
pub uninterp spec fn rfc2822_parse(s: Seq<char>) -> Option<(i64, Seq<char>)>;

/// What parsing an RFC 3339 date yields, as for `rfc2822_parse`.
pub uninterp spec fn rfc3339_parse(s: Seq<char>) -> Option<(i64, Seq<char>)>;

/// What parsing a date under a pattern with an explicit timezone yields.
pub uninterp spec fn pattern_tz_parse(s: Seq<char>, pattern: Seq<char>) -> Option<(i64, Seq<char>)>;

/// What parsing a naive date (no timezone, read as UTC) under a pattern yields.
pub uninterp spec fn pattern_naive_parse(s: Seq<char>, pattern: Seq<char>) -> Option<
    (i64, Seq<char>),
>;

/// Relies on chrono's DateTime::parse_from_rfc2822, timestamp_millis and the
/// canonical formatter: the outcome depends on the text alone.
#[verifier::external_body]
pub fn parse_rfc2822(s: &str) -> (r: Option<(i64, String)>)
    ensures
        r is Some <==> rfc2822_parse(s@) is Some,
        r is Some ==> r.unwrap().0 == rfc2822_parse(s@).unwrap().0 && r.unwrap().1@
            == rfc2822_parse(s@).unwrap().1,
{
    match chrono::DateTime::parse_from_rfc2822(s) {
        Ok(d) => {
            let utc = d.to_utc();
            Some((utc.timestamp_millis(), utc.format(OUTPUT_DATE_FORMAT_UTC).to_string()))
        },
        Err(_) => None,
    }
}

/// Relies on chrono's DateTime::parse_from_rfc3339, timestamp_millis and the
/// canonical formatter: the outcome depends on the text alone.
#[verifier::external_body]
pub fn parse_rfc3339(s: &str) -> (r: Option<(i64, String)>)
    ensures
        r is Some <==> rfc3339_parse(s@) is Some,
        r is Some ==> r.unwrap().0 == rfc3339_parse(s@).unwrap().0 && r.unwrap().1@
            == rfc3339_parse(s@).unwrap().1,
{
    match chrono::DateTime::parse_from_rfc3339(s) {
        Ok(d) => {
            let utc = d.to_utc();
            Some((utc.timestamp_millis(), utc.format(OUTPUT_DATE_FORMAT_UTC).to_string()))
        },
        Err(_) => None,
    }
}

/// Relies on chrono's DateTime::parse_from_str with a timezone-bearing
/// pattern: the outcome depends on the text and the pattern alone.
#[verifier::external_body]
pub fn parse_pattern_tz(s: &str, pattern: &str) -> (r: Option<(i64, String)>)
    ensures
        r is Some <==> pattern_tz_parse(s@, pattern@) is Some,
        r is Some ==> r.unwrap().0 == pattern_tz_parse(s@, pattern@).unwrap().0 && r.unwrap().1@
            == pattern_tz_parse(s@, pattern@).unwrap().1,
{
    match chrono::DateTime::parse_from_str(s, pattern) {
        Ok(d) => {
            let utc = d.to_utc();
            Some((utc.timestamp_millis(), utc.format(OUTPUT_DATE_FORMAT_UTC).to_string()))
        },
        Err(_) => None,
    }
}

/// Relies on chrono's NaiveDateTime::parse_from_str, the parsed value read
/// as UTC: the outcome depends on the text and the pattern alone.
#[verifier::external_body]
pub fn parse_pattern_naive(s: &str, pattern: &str) -> (r: Option<(i64, String)>)
    ensures
        r is Some <==> pattern_naive_parse(s@, pattern@) is Some,
        r is Some ==> r.unwrap().0 == pattern_naive_parse(s@, pattern@).unwrap().0 && r.unwrap().1@
            == pattern_naive_parse(s@, pattern@).unwrap().1,
{
    match chrono::NaiveDateTime::parse_from_str(s, pattern) {
        Ok(naive) => {
            let utc: chrono::DateTime<chrono::Utc> = chrono::TimeZone::from_local_datetime(
                &chrono::Utc,
                &naive,
            ).unwrap();
            Some((utc.timestamp_millis(), utc.format(OUTPUT_DATE_FORMAT_UTC).to_string()))
        },
        Err(_) => None,
    }
}

/// Relies on chrono's Utc::now and the canonical formatter. The text is the
/// canonical rendering of the returned instant; nothing else is promised of
/// a clock reading.
#[verifier::external_body]
pub fn now_utc() -> (r: (i64, String))
    ensures
        r.1@ == utc_datetime_str(r.0),
{
    let now = chrono::Utc::now();
    (now.timestamp_millis(), now.format(OUTPUT_DATE_FORMAT_UTC).to_string())
}

/// Relies on chrono's DateTime::from_timestamp_millis and the canonical
/// formatter. chrono represents every instant between the years -262144 and
/// 262142, so the bound keeps the input strictly inside that range and the
/// conversion cannot fail.
#[verifier::external_body]
pub fn format_utc_millis(ms: i64) -> (r: String)
    requires
        -8_000_000_000_000_000 <= ms <= 8_000_000_000_000_000,
    ensures
        r@ == utc_datetime_str(ms),
{
    let dt = chrono::DateTime::<chrono::Utc>::from_timestamp_millis(ms).unwrap();
    dt.format(OUTPUT_DATE_FORMAT_UTC).to_string()
}

/// Milliseconds between the unix epoch and 1601-01-01 00:00:00 UTC.
pub const FILETIME_UNIX_OFFSET_MILLIS: i64 = 11_644_473_600_000;

/// A FILETIME counts 100-nanosecond intervals since 1601-01-01 UTC; this is
/// the same instant in unix-epoch milliseconds, rounded toward 1601.
pub open spec fn filetime_unix_millis(ft: u64) -> int {
    ft as int / 10_000 - 11_644_473_600_000
}

/// The same instant in whole unix-epoch seconds, rounded toward 1601.
pub open spec fn filetime_unix_secs(ft: u64) -> int {
    ft as int / 10_000_000 - 11_644_473_600
}

/// Convert a FILETIME to unix-epoch milliseconds.
pub fn filetime_to_unix_millis(ft: u64) -> (r: i64)
    ensures
        r == filetime_unix_millis(ft),
        -8_000_000_000_000_000 <= r <= 8_000_000_000_000_000,
{
    let ticks: u64 = ft / 10_000;
    (ticks as i64) - FILETIME_UNIX_OFFSET_MILLIS
}

/// Convert a FILETIME to whole unix-epoch seconds.
pub fn filetime_to_unix_secs(ft: u64) -> (r: i64)
    ensures
        r == filetime_unix_secs(ft),
{
    let secs: u64 = ft / 10_000_000;
    (secs as i64) - 11_644_473_600
}

/// The canonical UTC text of a FILETIME instant.
pub fn filetime_to_utc_text(ft: u64) -> (r: String)
    ensures
        r@ == utc_datetime_str(filetime_to_millis_value(ft)),
{
    let ms = filetime_to_unix_millis(ft);
    format_utc_millis(ms)
}

/// The unix-epoch milliseconds of a FILETIME, as the machine value.
pub open spec fn filetime_to_millis_value(ft: u64) -> i64 {
    (ft as int / 10_000 - 11_644_473_600_000) as i64
}

/// Whole seconds of a millisecond instant, rounded toward minus infinity,
/// as chrono's `timestamp` does.
pub fn millis_to_secs_floor(ms: i64) -> (r: i64)
    ensures
        r == ms as int / 1000,
{
    if ms >= 0 {
        let q: i64 = ((ms as u64) / 1000) as i64;
        assert(q == ms as int / 1000) by (nonlinear_arith)
            requires
                ms >= 0,
                q == (ms as u64) as int / 1000,
        ;
        q
    } else {
        let pos: i64 = -(ms + 1);
        let q: i64 = ((pos as u64) / 1000) as i64;
        let r = -(q + 1);
        assert(r == ms as int / 1000) by (nonlinear_arith)
            requires
                ms < 0,
                pos == -(ms as int + 1),
                q == (pos as u64) as int / 1000,
                r == -(q as int + 1),
        ;
        r
    }
}

} // verus!
