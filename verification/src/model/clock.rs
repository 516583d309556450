//! Reading instants and days from text. The work is done by the `time`
//! crate; what this crate relies on is stated here and not proved.

use vstd::prelude::*;
use vstd::string::*;
use time::format_description::well_known::Iso8601;
use time::{Date, OffsetDateTime};
use crate::json::{JsonScalar, Scalar};
use crate::model::{CalendarDate, Timestamp};

verus! {

/// The instant that `OffsetDateTime::parse` reads from `text` as ISO 8601,
/// in nanoseconds since 1970-01-01T00:00:00 UTC; `None` where it reads none.
pub uninterp spec fn iso8601_nanos(text: Seq<char>) -> Option<i128>;

/// The day that `Date::parse` reads from `text` under the format description
/// `format`, as year, month and day; `None` where the description is not
/// valid or the text does not match it.
pub uninterp spec fn parsed_day(format: Seq<char>, text: Seq<char>) -> Option<(i32, u8, u8)>;

/// `OffsetDateTime::parse` with `Iso8601::DEFAULT`, then
/// `OffsetDateTime::unix_timestamp_nanos`: the instant that a text in ISO
/// 8601 names. Nothing is claimed of which texts are read.
#[verifier::external_body]
pub(crate) fn parse_iso8601(text: &str) -> (r: Option<i128>)
    ensures
        r == iso8601_nanos(text@),
{
    OffsetDateTime::parse(text, &Iso8601::DEFAULT).ok().map(|t| t.unix_timestamp_nanos())
}

/// `format_description::parse_borrowed` and `Date::parse`: the day that a
/// text names under a format description. Nothing is claimed of which texts
/// are read.
#[verifier::external_body]
pub(crate) fn parse_day(format: &str, text: &str) -> (r: Option<(i32, u8, u8)>)
    ensures
        r == parsed_day(format@, text@),
{
    let items = time::format_description::parse_borrowed::<2>(format).ok()?;
    let date = Date::parse(text, &items).ok()?;
    Some((date.year(), u8::from(date.month()), date.day()))
}

/// The format in which the API writes a day.
pub open spec fn day_format() -> Seq<char> {
    "[year]-[month]-[day]"@
}

/// What a value gives as an instant that must be there.
pub open spec fn instant_in(v: Option<Scalar>) -> Option<Timestamp> {
    match v {
        Some(Scalar::Text(s)) => match iso8601_nanos(s) {
            Some(n) => Some(Timestamp { unix_nanos: n }),
            None => None,
        },
        _ => None,
    }
}

/// What a value gives as a day that may be missing or null; the outer `None`
/// is for any other value.
pub open spec fn optional_day_in(v: Option<Scalar>) -> Option<Option<CalendarDate>> {
    match v {
        None => Some(None),
        Some(Scalar::Null) => Some(None),
        Some(Scalar::Text(s)) => match parsed_day(day_format(), s) {
            Some((year, month, day)) => Some(Some(CalendarDate { year, month, day })),
            None => None,
        },
        _ => None,
    }
}

/// The instant that an instant value of the API names.
pub fn instant_of(value: &str) -> (r: Option<Timestamp>)
    ensures
        r == instant_in(Some(Scalar::Text(value@))),
{
    match parse_iso8601(value) {
        Some(n) => Some(Timestamp { unix_nanos: n }),
        None => None,
    }
}

/// The day that a day value of the API names.
pub fn day_of(value: &str) -> (r: Option<CalendarDate>)
    ensures
        r == match parsed_day(day_format(), value@) {
            Some((year, month, day)) => Some(CalendarDate { year, month, day }),
            None => None,
        },
{
    match parse_day("[year]-[month]-[day]", value) {
        Some((year, month, day)) => Some(CalendarDate { year, month, day }),
        None => None,
    }
}

/// Reads an instant that must be there.
pub fn read_instant(v: Option<&JsonScalar>) -> (r: Option<Timestamp>)
    ensures
        r == instant_in(crate::json::scalar_view(v)),
{
    match v {
        Some(JsonScalar::String(s)) => instant_of(s.as_str()),
        _ => None,
    }
}

/// Reads a day that may be missing or null.
pub fn read_optional_day(v: Option<&JsonScalar>) -> (r: Option<Option<CalendarDate>>)
    ensures
        r == optional_day_in(crate::json::scalar_view(v)),
{
    match v {
        None => Some(None),
        Some(JsonScalar::Null) => Some(None),
        Some(JsonScalar::String(s)) => match day_of(s.as_str()) {
            Some(day) => Some(Some(day)),
            None => None,
        },
        _ => None,
    }
}

} // verus!
