//! Calendar dates and timestamps as plain values, read from wire cells.
//!
//! The reading first tries a fixed, ordered list of known formats and takes
//! the first that parses; a caller-supplied custom format replaces the list
//! for that field. What a given text parses to under a given format is the
//! format engine's business and is only named here, never restated.

use vstd::prelude::*;
use chrono::Datelike;
use chrono::Timelike;
use crate::cell::CellValue;
use crate::convert::FromTushareValue;
use crate::convert::FromOptionalTushareValue;
use crate::convert::cell_is_absent;
use crate::convert::optional_absent;
use crate::digits::parse_int_spec;
use crate::digits::int_text_of;
use crate::digits::i64_to_dec_string;
use crate::error::TushareError;

verus! {

/// A calendar date, held as plain year, month and day numbers.
#[derive(Debug, Clone, Copy, PartialEq, Eq, Structural, Hash)]
pub struct Date {
    pub year: i32,
    pub month: u8,
    pub day: u8,
}

impl Date {
    /// Month and day lie in calendar range.
    pub open spec fn wf(self) -> bool {
        1 <= self.month <= 12 && 1 <= self.day <= 31
    }
}

/// A date with a time of day, held as plain numbers.
#[derive(Debug, Clone, Copy, PartialEq, Eq, Structural, Hash)]
pub struct DateTime {
    pub year: i32,
    pub month: u8,
    pub day: u8,
    pub hour: u8,
    pub minute: u8,
    pub second: u8,
}

impl DateTime {
    pub open spec fn wf(self) -> bool {
        &&& 1 <= self.month <= 12
        &&& 1 <= self.day <= 31
        &&& self.hour < 24
        &&& self.minute < 60
        &&& self.second < 60
    }

    /// The calendar-date part.
    pub fn date(&self) -> (r: Date)
        ensures
            r == (Date { year: self.year, month: self.month, day: self.day }),
    {
        Date { year: self.year, month: self.month, day: self.day }
    }
}

/// The date that the format engine reads out of `s` under format `fmt`,
/// if any, as (year, month, day).
pub uninterp spec fn chrono_date_of(s: Seq<char>, fmt: Seq<char>) -> Option<(i32, u8, u8)>;

/// The timestamp that the format engine reads out of `s` under format `fmt`,
/// if any, as (year, month, day, hour, minute, second).
pub uninterp spec fn chrono_datetime_of(s: Seq<char>, fmt: Seq<char>) -> Option<
    (i32, u8, u8, u8, u8, u8),
>;

/// Relies on chrono::NaiveDate::parse_from_str: whether the text parses under
/// the format, and the resulting date, depend on the two arguments alone; a
/// parsed date has its month in 1..=12 and its day in 1..=31.
#[verifier::external_body]
pub fn parse_date_text(s: &str, fmt: &str) -> (r: Option<Date>)
    ensures
        r matches Some(d)
            ==> (chrono_date_of(s@, fmt@) == Some((d.year, d.month, d.day)) && d.wf()),
        r is None ==> chrono_date_of(s@, fmt@) is None,
{
    match chrono::NaiveDate::parse_from_str(s, fmt) {
        Ok(d) => Some(Date { year: d.year(), month: d.month() as u8, day: d.day() as u8 }),
        Err(_) => None,
    }
}

/// Relies on chrono::NaiveDateTime::parse_from_str: whether the text parses
/// under the format, and the resulting timestamp, depend on the two arguments
/// alone; the fields of a parsed timestamp lie in calendar and clock range.
#[verifier::external_body]
pub fn parse_datetime_text(s: &str, fmt: &str) -> (r: Option<DateTime>)
    ensures
        r matches Some(d)
            ==> (chrono_datetime_of(s@, fmt@)
                == Some((d.year, d.month, d.day, d.hour, d.minute, d.second)) && d.wf()),
        r is None ==> chrono_datetime_of(s@, fmt@) is None,
{
    match chrono::NaiveDateTime::parse_from_str(s, fmt) {
        Ok(d) => Some(DateTime {
            year: d.year(),
            month: d.month() as u8,
            day: d.day() as u8,
            hour: d.hour() as u8,
            minute: d.minute() as u8,
            second: d.second() as u8,
        }),
        Err(_) => None,
    }
}

// ---------------------------------------------------------------------------
// The default format lists.
// ---------------------------------------------------------------------------

/// The fixed, ordered list of date formats tried when no override is given.
pub open spec fn date_formats() -> Seq<Seq<char>> {
    seq![
        "%Y%m%d"@,
        "%Y-%m-%d"@,
        "%Y/%m/%d"@,
        "%d/%m/%Y"@,
        "%m/%d/%Y"@,
        "%d-%m-%Y"@,
        "%m-%d-%Y"@,
        "%d.%m.%Y"@,
        "%Y.%m.%d"@,
        "%Y年%m月%d日"@,
        "%Y-%m-%d %H:%M:%S"@,
    ]
}

/// Formats in the list that carry a time of day get a second chance as a
/// full timestamp whose date part is taken.
pub open spec fn date_format_has_time(i: int) -> bool {
    i == 10
}

/// What the format at position `i` reads out of `s`.
pub open spec fn date_at_format(s: Seq<char>, i: int) -> Option<(i32, u8, u8)> {
    match chrono_date_of(s, date_formats()[i]) {
        Some(d) => Some(d),
        None => if date_format_has_time(i) {
            match chrono_datetime_of(s, date_formats()[i]) {
                Some(p) => Some((p.0, p.1, p.2)),
                None => None,
            }
        } else {
            None
        },
    }
}

/// The first format in the list, from position `i` on, that reads a date.
pub open spec fn first_date_match(s: Seq<char>, i: int) -> Option<(i32, u8, u8)>
    decreases 11 - i,
{
    if i < 0 || i >= 11 {
        None
    } else {
        match date_at_format(s, i) {
            Some(d) => Some(d),
            None => first_date_match(s, i + 1),
        }
    }
}

/// What a string cell reads as at a date target without an override.
pub open spec fn date_text_spec(s: Seq<char>) -> Option<(i32, u8, u8)> {
    first_date_match(s, 0)
}

/// What any cell reads as at a date target without an override: a number
/// cell is rendered back to text and accepted only as an 8-digit date.
pub open spec fn date_cell_spec(c: CellValue) -> Option<(i32, u8, u8)> {
    match c {
        CellValue::Text(s) => date_text_spec(s@),
        CellValue::Number(t) => match parse_int_spec(t@) {
            Some(v) => if i64::MIN <= v <= i64::MAX && int_text_of(v).len() == 8 {
                chrono_date_of(int_text_of(v), "%Y%m%d"@)
            } else {
                None
            },
            None => None,
        },
        _ => None,
    }
}

fn nth_date_format(i: usize) -> (r: (&'static str, bool))
    requires
        i < 11,
    ensures
        r.0@ == date_formats()[i as int],
        r.1 == date_format_has_time(i as int),
{
    match i {
        0 => ("%Y%m%d", false),
        1 => ("%Y-%m-%d", false),
        2 => ("%Y/%m/%d", false),
        3 => ("%d/%m/%Y", false),
        4 => ("%m/%d/%Y", false),
        5 => ("%d-%m-%Y", false),
        6 => ("%m-%d-%Y", false),
        7 => ("%d.%m.%Y", false),
        8 => ("%Y.%m.%d", false),
        9 => ("%Y年%m月%d日", false),
        _ => ("%Y-%m-%d %H:%M:%S", true),
    }
}

fn date_from_text(s: &str) -> (r: Option<Date>)
    ensures
        r matches Some(d)
            ==> (date_text_spec(s@) == Some((d.year, d.month, d.day)) && d.wf()),
        r is None ==> date_text_spec(s@) is None,
{
    let mut i: usize = 0;
    while i < 11
        invariant
            0 <= i <= 11,
            first_date_match(s@, 0) == first_date_match(s@, i as int),
        decreases 11 - i,
    {
        let (fmt, has_time) = nth_date_format(i);
        if let Some(d) = parse_date_text(s, fmt) {
            return Some(d);
        }
        if has_time {
            if let Some(d) = parse_datetime_text(s, fmt) {
                return Some(d.date());
            }
        }
        proof {
            assert(date_at_format(s@, i as int) is None);
        }
        i = i + 1;
    }
    None
}

impl FromTushareValue for Date {
    fn from_tushare_value(value: &CellValue) -> (r: Result<Self, TushareError>)
        ensures
            date_cell_spec(*value) matches Some(p)
                ==> (r matches Ok(d) && (d.year, d.month, d.day) == p && d.wf()),
            date_cell_spec(*value) is None ==> (r matches Err(e) && e is ParseError),
            (match *value {
                CellValue::Text(s) => date_text_spec(s@) is None ==> (r matches Err(e)
                    && e matches TushareError::ParseError(m)
                    && m@ == "Failed to parse date from string '"@ + s@ + "'"@),
                _ => true,
            }),
    {
        match value {
            CellValue::Text(s) => {
                match date_from_text(s.as_str()) {
                    Some(d) => Ok(d),
                    None => {
                        let mut m = "Failed to parse date from string '".to_owned();
                        m.append(s.as_str());
                        m.append("'");
                        Err(TushareError::ParseError(m))
                    },
                }
            },
            CellValue::Number(t) => {
                match crate::convert::cell_int_value(value) {
                    Some(x) => {
                        if i64::MIN as i128 <= x && x <= i64::MAX as i128 {
                            let text = i64_to_dec_string(x as i64);
                            if text.as_str().unicode_len() == 8 {
                                match parse_date_text(text.as_str(), "%Y%m%d") {
                                    Some(d) => Ok(d),
                                    None => {
                                        let mut m = "Failed to parse date from number '".to_owned();
                                        m.append(text.as_str());
                                        m.append("'");
                                        Err(TushareError::ParseError(m))
                                    },
                                }
                            } else {
                                let mut m = "Invalid date number format: '".to_owned();
                                m.append(text.as_str());
                                m.append("'. Expected an 8-digit date");
                                Err(TushareError::ParseError(m))
                            }
                        } else {
                            Err(TushareError::ParseError(
                                "Cannot convert number to date".to_owned(),
                            ))
                        }
                    },
                    None => Err(TushareError::ParseError(
                        "Cannot convert cell to date".to_owned(),
                    )),
                }
            },
            _ => Err(TushareError::ParseError("Cannot convert cell to date".to_owned())),
        }
    }
}

impl FromOptionalTushareValue for Date {
    fn from_optional_tushare_value(value: &CellValue) -> (r: Result<Option<Self>, TushareError>)
        ensures
            optional_absent(*value) ==> (r matches Ok(o) && o is None),
            !optional_absent(*value) ==> {
                &&& (date_cell_spec(*value) matches Some(p)
                        ==> (r matches Ok(o) && o matches Some(d)
                            && (d.year, d.month, d.day) == p && d.wf()))
                &&& (date_cell_spec(*value) is None
                        ==> (r matches Err(e) && e is ParseError))
            },
    {
        if cell_is_absent(value) {
            return Ok(None);
        }
        match Date::from_tushare_value(value) {
            Ok(d) => Ok(Some(d)),
            Err(e) => Err(e),
        }
    }
}

// ---------------------------------------------------------------------------
// Timestamps.
// ---------------------------------------------------------------------------

/// The fixed, ordered list of timestamp formats tried without an override.
pub open spec fn datetime_formats() -> Seq<Seq<char>> {
    seq![
        "%Y%m%d %H:%M:%S"@,
        "%Y-%m-%d %H:%M:%S"@,
        "%Y/%m/%d %H:%M:%S"@,
        "%Y-%m-%dT%H:%M:%S"@,
    ]
}

pub open spec fn first_datetime_match(s: Seq<char>, i: int) -> Option<(i32, u8, u8, u8, u8, u8)>
    decreases 4 - i,
{
    if i < 0 || i >= 4 {
        None
    } else {
        match chrono_datetime_of(s, datetime_formats()[i]) {
            Some(p) => Some(p),
            None => first_datetime_match(s, i + 1),
        }
    }
}

/// What a cell reads as at a timestamp target: string cells only.
pub open spec fn datetime_cell_spec(c: CellValue) -> Option<(i32, u8, u8, u8, u8, u8)> {
    match c {
        CellValue::Text(s) => first_datetime_match(s@, 0),
        _ => None,
    }
}

fn nth_datetime_format(i: usize) -> (r: &'static str)
    requires
        i < 4,
    ensures
        r@ == datetime_formats()[i as int],
{
    match i {
        0 => "%Y%m%d %H:%M:%S",
        1 => "%Y-%m-%d %H:%M:%S",
        2 => "%Y/%m/%d %H:%M:%S",
        _ => "%Y-%m-%dT%H:%M:%S",
    }
}

impl FromTushareValue for DateTime {
    fn from_tushare_value(value: &CellValue) -> (r: Result<Self, TushareError>)
        ensures
            datetime_cell_spec(*value) matches Some(p)
                ==> (r matches Ok(d)
                    && (d.year, d.month, d.day, d.hour, d.minute, d.second) == p && d.wf()),
            datetime_cell_spec(*value) is None ==> (r matches Err(e) && e is ParseError),
            (match *value {
                CellValue::Text(s) => first_datetime_match(s@, 0) is None ==> (r matches Err(e)
                    && e matches TushareError::ParseError(m)
                    && m@ == "Failed to parse datetime from string '"@ + s@ + "'"@),
                _ => true,
            }),
    {
        match value {
            CellValue::Text(s) => {
                let mut i: usize = 0;
                while i < 4
                    invariant
                        0 <= i <= 4,
                        *value == CellValue::Text(*s),
                        first_datetime_match(s@, 0) == first_datetime_match(s@, i as int),
                    decreases 4 - i,
                {
                    let fmt = nth_datetime_format(i);
                    if let Some(d) = parse_datetime_text(s.as_str(), fmt) {
                        return Ok(d);
                    }
                    i = i + 1;
                }
                let mut m = "Failed to parse datetime from string '".to_owned();
                m.append(s.as_str());
                m.append("'");
                Err(TushareError::ParseError(m))
            },
            _ => Err(TushareError::ParseError("Cannot convert cell to datetime".to_owned())),
        }
    }
}

impl FromOptionalTushareValue for DateTime {
    fn from_optional_tushare_value(value: &CellValue) -> (r: Result<Option<Self>, TushareError>)
        ensures
            optional_absent(*value) ==> (r matches Ok(o) && o is None),
            !optional_absent(*value) ==> {
                &&& (datetime_cell_spec(*value) matches Some(p)
                        ==> (r matches Ok(o) && o matches Some(d)
                            && (d.year, d.month, d.day, d.hour, d.minute, d.second) == p
                            && d.wf()))
                &&& (datetime_cell_spec(*value) is None
                        ==> (r matches Err(e) && e is ParseError))
            },
    {
        if cell_is_absent(value) {
            return Ok(None);
        }
        match DateTime::from_tushare_value(value) {
            Ok(d) => Ok(Some(d)),
            Err(e) => Err(e),
        }
    }
}

// ---------------------------------------------------------------------------
// Caller-supplied format overrides.
// ---------------------------------------------------------------------------

/// A type that can be read from a cell under a caller-supplied format
/// string; the override replaces the default format list for that field.
pub trait FromTushareValueWithFormat: Sized {
    fn from_tushare_value_with_format(value: &CellValue, format: &str) -> Result<
        Self,
        TushareError,
    >;
}

/// What a cell reads as at a date target under a format override. An
/// 8-digit number cell is still accepted as a compact date first, then the
/// override is tried on the rendered number.
pub open spec fn date_cell_with_format_spec(c: CellValue, fmt: Seq<char>) -> Option<
    (i32, u8, u8),
> {
    match c {
        CellValue::Text(s) => chrono_date_of(s@, fmt),
        CellValue::Number(t) => match parse_int_spec(t@) {
            Some(v) => if i64::MIN <= v <= i64::MAX {
                if int_text_of(v).len() == 8 && chrono_date_of(int_text_of(v), "%Y%m%d"@) is Some {
                    chrono_date_of(int_text_of(v), "%Y%m%d"@)
                } else {
                    chrono_date_of(int_text_of(v), fmt)
                }
            } else {
                None
            },
            None => None,
        },
        _ => None,
    }
}

/// The failure message for a date read under a format override: it names
/// the format that was attempted.
pub open spec fn date_format_error_message(c: CellValue, fmt: Seq<char>) -> Seq<char> {
    match c {
        CellValue::Text(s) => "Failed to parse date '"@ + s@ + "' with format '"@ + fmt + "'"@,
        CellValue::Number(t) => "Failed to parse numeric date with format '"@ + fmt + "'"@,
        _ => "Expected string or number for date parsing"@,
    }
}

impl FromTushareValueWithFormat for Date {
    fn from_tushare_value_with_format(value: &CellValue, format: &str) -> (r: Result<
        Self,
        TushareError,
    >)
        ensures
            date_cell_with_format_spec(*value, format@) matches Some(p)
                ==> (r matches Ok(d) && (d.year, d.month, d.day) == p && d.wf()),
            date_cell_with_format_spec(*value, format@) is None
                ==> (r matches Err(e) && e matches TushareError::ParseError(m)
                    && m@ == date_format_error_message(*value, format@)),
    {
        match value {
            CellValue::Text(s) => {
                match parse_date_text(s.as_str(), format) {
                    Some(d) => Ok(d),
                    None => {
                        let mut m = "Failed to parse date '".to_owned();
                        m.append(s.as_str());
                        m.append("' with format '");
                        m.append(format);
                        m.append("'");
                        Err(TushareError::ParseError(m))
                    },
                }
            },
            CellValue::Number(_) => {
                let parsed = match crate::convert::cell_int_value(value) {
                    Some(x) => {
                        if i64::MIN as i128 <= x && x <= i64::MAX as i128 {
                            let text = i64_to_dec_string(x as i64);
                            if text.as_str().unicode_len() == 8 {
                                match parse_date_text(text.as_str(), "%Y%m%d") {
                                    Some(d) => Some(d),
                                    None => parse_date_text(text.as_str(), format),
                                }
                            } else {
                                parse_date_text(text.as_str(), format)
                            }
                        } else {
                            None
                        }
                    },
                    None => None,
                };
                match parsed {
                    Some(d) => Ok(d),
                    None => {
                        let mut m = "Failed to parse numeric date with format '".to_owned();
                        m.append(format);
                        m.append("'");
                        Err(TushareError::ParseError(m))
                    },
                }
            },
            _ => {
                Err(TushareError::ParseError(
                    "Expected string or number for date parsing".to_owned(),
                ))
            },
        }
    }
}

/// What a cell reads as at a timestamp target under a format override.
pub open spec fn datetime_cell_with_format_spec(c: CellValue, fmt: Seq<char>) -> Option<
    (i32, u8, u8, u8, u8, u8),
> {
    match c {
        CellValue::Text(s) => chrono_datetime_of(s@, fmt),
        CellValue::Number(t) => match parse_int_spec(t@) {
            Some(v) => if i64::MIN <= v <= i64::MAX {
                chrono_datetime_of(int_text_of(v), fmt)
            } else {
                None
            },
            None => None,
        },
        _ => None,
    }
}

pub open spec fn datetime_format_error_message(c: CellValue, fmt: Seq<char>) -> Seq<char> {
    match c {
        CellValue::Text(s) => "Failed to parse datetime '"@ + s@ + "' with format '"@ + fmt
            + "'"@,
        CellValue::Number(t) => "Failed to parse numeric datetime with format '"@ + fmt + "'"@,
        _ => "Expected string or number for datetime parsing"@,
    }
}

impl FromTushareValueWithFormat for DateTime {
    fn from_tushare_value_with_format(value: &CellValue, format: &str) -> (r: Result<
        Self,
        TushareError,
    >)
        ensures
            datetime_cell_with_format_spec(*value, format@) matches Some(p)
                ==> (r matches Ok(d)
                    && (d.year, d.month, d.day, d.hour, d.minute, d.second) == p && d.wf()),
            datetime_cell_with_format_spec(*value, format@) is None
                ==> (r matches Err(e) && e matches TushareError::ParseError(m)
                    && m@ == datetime_format_error_message(*value, format@)),
    {
        match value {
            CellValue::Text(s) => {
                match parse_datetime_text(s.as_str(), format) {
                    Some(d) => Ok(d),
                    None => {
                        let mut m = "Failed to parse datetime '".to_owned();
                        m.append(s.as_str());
                        m.append("' with format '");
                        m.append(format);
                        m.append("'");
                        Err(TushareError::ParseError(m))
                    },
                }
            },
            CellValue::Number(_) => {
                let parsed = match crate::convert::cell_int_value(value) {
                    Some(x) => {
                        if i64::MIN as i128 <= x && x <= i64::MAX as i128 {
                            let text = i64_to_dec_string(x as i64);
                            parse_datetime_text(text.as_str(), format)
                        } else {
                            None
                        }
                    },
                    None => None,
                };
                match parsed {
                    Some(d) => Ok(d),
                    None => {
                        let mut m = "Failed to parse numeric datetime with format '".to_owned();
                        m.append(format);
                        m.append("'");
                        Err(TushareError::ParseError(m))
                    },
                }
            },
            _ => {
                Err(TushareError::ParseError(
                    "Expected string or number for datetime parsing".to_owned(),
                ))
            },
        }
    }
}

// ---------------------------------------------------------------------------
// Timestamps pinned to UTC.
// ---------------------------------------------------------------------------

/// An instant's civil time in UTC, held as plain numbers.
#[derive(Debug, Clone, Copy, PartialEq, Eq, Structural, Hash)]
pub struct UtcDateTime {
    pub year: i32,
    pub month: u8,
    pub day: u8,
    pub hour: u8,
    pub minute: u8,
    pub second: u8,
}

impl UtcDateTime {
    pub open spec fn wf(self) -> bool {
        &&& 1 <= self.month <= 12
        &&& 1 <= self.day <= 31
        &&& self.hour < 24
        &&& self.minute < 60
        &&& self.second < 60
    }
}

/// The instant that an RFC 3339 text denotes, if any, as its civil time
/// in UTC.
pub uninterp spec fn rfc3339_utc_of(s: Seq<char>) -> Option<(i32, u8, u8, u8, u8, u8)>;

/// The instant that the format engine reads out of `s` under format `fmt`
/// (which must carry an offset), if any, as its civil time in UTC.
pub uninterp spec fn chrono_utc_of(s: Seq<char>, fmt: Seq<char>) -> Option<
    (i32, u8, u8, u8, u8, u8),
>;

/// Relies on chrono::DateTime::parse_from_rfc3339, composed with the
/// conversion to UTC: whether the text parses, and the instant it denotes,
/// depend on the text alone; the fields lie in calendar and clock range.
#[verifier::external_body]
pub fn parse_rfc3339_utc(s: &str) -> (r: Option<UtcDateTime>)
    ensures
        r matches Some(d)
            ==> (rfc3339_utc_of(s@)
                == Some((d.year, d.month, d.day, d.hour, d.minute, d.second)) && d.wf()),
        r is None ==> rfc3339_utc_of(s@) is None,
{
    match chrono::DateTime::parse_from_rfc3339(s) {
        Ok(d) => {
            let u = d.with_timezone(&chrono::Utc);
            Some(UtcDateTime {
                year: u.year(),
                month: u.month() as u8,
                day: u.day() as u8,
                hour: u.hour() as u8,
                minute: u.minute() as u8,
                second: u.second() as u8,
            })
        },
        Err(_) => None,
    }
}

/// Relies on chrono::DateTime::parse_from_str, composed with the
/// conversion to UTC: whether the text parses under the format, and the
/// instant it denotes, depend on the two arguments alone; the fields lie
/// in calendar and clock range.
#[verifier::external_body]
pub fn parse_utc_with_format(s: &str, fmt: &str) -> (r: Option<UtcDateTime>)
    ensures
        r matches Some(d)
            ==> (chrono_utc_of(s@, fmt@)
                == Some((d.year, d.month, d.day, d.hour, d.minute, d.second)) && d.wf()),
        r is None ==> chrono_utc_of(s@, fmt@) is None,
{
    match chrono::DateTime::parse_from_str(s, fmt) {
        Ok(d) => {
            let u = d.with_timezone(&chrono::Utc);
            Some(UtcDateTime {
                year: u.year(),
                month: u.month() as u8,
                day: u.day() as u8,
                hour: u.hour() as u8,
                minute: u.minute() as u8,
                second: u.second() as u8,
            })
        },
        Err(_) => None,
    }
}

/// What a cell reads as at a UTC timestamp target: RFC 3339 first, then
/// the plain timestamp list with the result taken as already in UTC.
pub open spec fn utc_datetime_cell_spec(c: CellValue) -> Option<(i32, u8, u8, u8, u8, u8)> {
    match c {
        CellValue::Text(s) => match rfc3339_utc_of(s@) {
            Some(p) => Some(p),
            None => first_datetime_match(s@, 0),
        },
        _ => None,
    }
}

impl FromTushareValue for UtcDateTime {
    fn from_tushare_value(value: &CellValue) -> (r: Result<Self, TushareError>)
        ensures
            utc_datetime_cell_spec(*value) matches Some(p)
                ==> (r matches Ok(d)
                    && (d.year, d.month, d.day, d.hour, d.minute, d.second) == p && d.wf()),
            utc_datetime_cell_spec(*value) is None ==> (r matches Err(e) && e is ParseError),
    {
        match value {
            CellValue::Text(s) => {
                if let Some(d) = parse_rfc3339_utc(s.as_str()) {
                    return Ok(d);
                }
                match DateTime::from_tushare_value(value) {
                    Ok(d) => Ok(UtcDateTime {
                        year: d.year,
                        month: d.month,
                        day: d.day,
                        hour: d.hour,
                        minute: d.minute,
                        second: d.second,
                    }),
                    Err(_) => {
                        let mut m = "Failed to parse UTC datetime from string '".to_owned();
                        m.append(s.as_str());
                        m.append("'");
                        Err(TushareError::ParseError(m))
                    },
                }
            },
            _ => Err(TushareError::ParseError(
                "Cannot convert cell to UTC datetime".to_owned(),
            )),
        }
    }
}

impl FromOptionalTushareValue for UtcDateTime {
    fn from_optional_tushare_value(value: &CellValue) -> (r: Result<Option<Self>, TushareError>)
        ensures
            optional_absent(*value) ==> (r matches Ok(o) && o is None),
            !optional_absent(*value) ==> {
                &&& (utc_datetime_cell_spec(*value) matches Some(p)
                        ==> (r matches Ok(o) && o matches Some(d)
                            && (d.year, d.month, d.day, d.hour, d.minute, d.second) == p
                            && d.wf()))
                &&& (utc_datetime_cell_spec(*value) is None
                        ==> (r matches Err(e) && e is ParseError))
            },
    {
        if cell_is_absent(value) {
            return Ok(None);
        }
        match UtcDateTime::from_tushare_value(value) {
            Ok(d) => Ok(Some(d)),
            Err(e) => Err(e),
        }
    }
}

/// What a cell reads as at a UTC timestamp target under a format override
/// (the format must carry an offset).
pub open spec fn utc_cell_with_format_spec(c: CellValue, fmt: Seq<char>) -> Option<
    (i32, u8, u8, u8, u8, u8),
> {
    match c {
        CellValue::Text(s) => chrono_utc_of(s@, fmt),
        CellValue::Number(t) => match parse_int_spec(t@) {
            Some(v) => if i64::MIN <= v <= i64::MAX {
                chrono_utc_of(int_text_of(v), fmt)
            } else {
                None
            },
            None => None,
        },
        _ => None,
    }
}

pub open spec fn utc_format_error_message(c: CellValue, fmt: Seq<char>) -> Seq<char> {
    match c {
        CellValue::Text(s) => "Failed to parse UTC datetime '"@ + s@ + "' with format '"@ + fmt
            + "'"@,
        CellValue::Number(t) => "Failed to parse numeric UTC datetime with format '"@ + fmt
            + "'"@,
        _ => "Expected string or number for UTC datetime parsing"@,
    }
}

impl FromTushareValueWithFormat for UtcDateTime {
    fn from_tushare_value_with_format(value: &CellValue, format: &str) -> (r: Result<
        Self,
        TushareError,
    >)
        ensures
            utc_cell_with_format_spec(*value, format@) matches Some(p)
                ==> (r matches Ok(d)
                    && (d.year, d.month, d.day, d.hour, d.minute, d.second) == p && d.wf()),
            utc_cell_with_format_spec(*value, format@) is None
                ==> (r matches Err(e) && e matches TushareError::ParseError(m)
                    && m@ == utc_format_error_message(*value, format@)),
    {
        match value {
            CellValue::Text(s) => {
                match parse_utc_with_format(s.as_str(), format) {
                    Some(d) => Ok(d),
                    None => {
                        let mut m = "Failed to parse UTC datetime '".to_owned();
                        m.append(s.as_str());
                        m.append("' with format '");
                        m.append(format);
                        m.append("'");
                        Err(TushareError::ParseError(m))
                    },
                }
            },
            CellValue::Number(_) => {
                let parsed = match crate::convert::cell_int_value(value) {
                    Some(x) => {
                        if i64::MIN as i128 <= x && x <= i64::MAX as i128 {
                            let text = i64_to_dec_string(x as i64);
                            parse_utc_with_format(text.as_str(), format)
                        } else {
                            None
                        }
                    },
                    None => None,
                };
                match parsed {
                    Some(d) => Ok(d),
                    None => {
                        let mut m = "Failed to parse numeric UTC datetime with format '"
                            .to_owned();
                        m.append(format);
                        m.append("'");
                        Err(TushareError::ParseError(m))
                    },
                }
            },
            _ => {
                Err(TushareError::ParseError(
                    "Expected string or number for UTC datetime parsing".to_owned(),
                ))
            },
        }
    }
}

/// Reads a required value under a caller-supplied format.
pub fn from_tushare_value_with_date_format<T: FromTushareValueWithFormat>(
    value: &CellValue,
    format: &str,
) -> Result<T, TushareError> {
    T::from_tushare_value_with_format(value, format)
}

/// Reads an optional value under a caller-supplied format: a null cell or
/// an empty-string cell is absent.
pub fn from_optional_tushare_value_with_date_format<T: FromTushareValueWithFormat>(
    value: &CellValue,
    format: &str,
) -> (r: Result<Option<T>, TushareError>)
    ensures
        optional_absent(*value) ==> (r matches Ok(o) && o is None),
        !optional_absent(*value) ==> (r matches Ok(o) ==> o is Some),
{
    if cell_is_absent(value) {
        return Ok(None);
    }
    match T::from_tushare_value_with_format(value, format) {
        Ok(v) => Ok(Some(v)),
        Err(e) => Err(e),
    }
}

} // verus!
