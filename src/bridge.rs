//! The calls into std and outside crates that the library relies on without
//! proof, each with the contract it is trusted to meet.
use vstd::prelude::*;

verus! {

/// Earliest instant, in seconds since 1970-01-01 UTC, that the time crate
/// represents: -9999-01-01 00:00:00 UTC.
pub const MIN_UNIX_SECONDS: i64 = -377705116800;

/// Latest whole second that the time crate represents: 9999-12-31 23:59:59 UTC.
pub const MAX_UNIX_SECONDS: i64 = 253402300799;

/// What `str::to_uppercase` returns for a text.
pub uninterp spec fn upper_of(s: Seq<char>) -> Seq<char>;

/// What `str::to_lowercase` returns for a text.
pub uninterp spec fn lower_of(s: Seq<char>) -> Seq<char>;

/// Hour and minute of the time that time's `Time::parse` reads from `input`
/// by the (version 1) format description `format`; `None` where it fails.
pub uninterp spec fn clock_parsed(format: Seq<char>, input: Seq<char>) -> Option<(u8, u8)>;

/// Seconds since 1970-01-01 UTC of the date and time that time's
/// `PrimitiveDateTime::parse` reads from `input` by `format`, taken as UTC.
pub uninterp spec fn utc_stamp_parsed(format: Seq<char>, input: Seq<char>) -> Option<i64>;

/// The text that time's `OffsetDateTime::format` gives for the UTC instant
/// `seconds` with the description `format`; `None` where it fails.
pub uninterp spec fn utc_formatted(format: Seq<char>, seconds: int) -> Option<Seq<char>>;

/// What `urlencoding::encode` returns for a text.
pub uninterp spec fn url_encoded(s: Seq<char>) -> Seq<char>;

/// Relies on `str::to_uppercase`: the result depends on the characters alone.
#[verifier::external_body]
pub(crate) fn to_upper(s: &str) -> (r: String)
    ensures
        r@ == upper_of(s@),
{
    s.to_uppercase()
}

/// Relies on `str::to_lowercase`: the result depends on the characters alone.
#[verifier::external_body]
pub(crate) fn to_lower(s: &str) -> (r: String)
    ensures
        r@ == lower_of(s@),
{
    s.to_lowercase()
}

/// Relies on time's `format_description::parse_borrowed::<1>` to read
/// `format` and on `Time::parse` to read `input` by it. `Time::hour` is below
/// 24 and `Time::minute` below 60.
#[verifier::external_body]
pub(crate) fn parse_clock(input: &str, format: &str) -> (r: Option<(u8, u8)>)
    ensures
        r == clock_parsed(format@, input@),
        r matches Some((h, m)) ==> h < 24 && m < 60,
{
    match time::format_description::parse_borrowed::<1>(format) {
        Ok(items) => match time::Time::parse(input, &items) {
            Ok(t) => Some((t.hour(), t.minute())),
            Err(_) => None,
        },
        Err(_) => None,
    }
}

/// Relies on time's `OffsetDateTime::from_unix_timestamp`, which succeeds
/// exactly on the seconds from -9999-01-01 00:00:00 to 9999-12-31 23:59:59 UTC.
#[verifier::external_body]
pub(crate) fn unix_seconds_valid(seconds: i64) -> (r: bool)
    ensures
        r == (MIN_UNIX_SECONDS <= seconds && seconds <= MAX_UNIX_SECONDS),
{
    time::OffsetDateTime::from_unix_timestamp(seconds).is_ok()
}

/// Relies on time's `PrimitiveDateTime::parse` with the (version 1) format
/// description `format`, then `assume_utc` and `unix_timestamp`. A parsed date
/// lies in the years -9999 to 9999, so its instant is one that the time crate
/// represents.
#[verifier::external_body]
pub(crate) fn parse_utc_stamp(input: &str, format: &str) -> (r: Option<i64>)
    ensures
        r == utc_stamp_parsed(format@, input@),
        r matches Some(t) ==> MIN_UNIX_SECONDS <= t && t <= MAX_UNIX_SECONDS,
{
    match time::format_description::parse_borrowed::<1>(format) {
        Ok(items) => match time::PrimitiveDateTime::parse(input, &items) {
            Ok(dt) => Some(dt.assume_utc().unix_timestamp()),
            Err(_) => None,
        },
        Err(_) => None,
    }
}

/// Relies on time's `OffsetDateTime::from_unix_timestamp` and
/// `OffsetDateTime::format` with the (version 1) format description `format`.
#[verifier::external_body]
pub(crate) fn format_utc(seconds: i64, format: &str) -> (r: Option<String>)
    ensures
        match r {
            Some(t) => utc_formatted(format@, seconds as int) == Some(t@),
            None => utc_formatted(format@, seconds as int) is None,
        },
{
    let items = match time::format_description::parse_borrowed::<1>(format) {
        Ok(items) => items,
        Err(_) => return None,
    };
    match time::OffsetDateTime::from_unix_timestamp(seconds) {
        Ok(dt) => dt.format(&items).ok(),
        Err(_) => None,
    }
}

/// Relies on `urlencoding::encode`: percent-encoding of the UTF-8 bytes of
/// `s`, a function of its characters alone.
#[verifier::external_body]
pub(crate) fn url_encode(s: &str) -> (r: String)
    ensures
        r@ == url_encoded(s@),
{
    urlencoding::encode(s).into_owned()
}

} // verus!
