//! The value coercion engine: converts one untyped wire cell into one typed
//! value (or a typed-optional value), per target type.
//!
//! Policy notes, fixed deliberately:
//! - numeric targets accept both number cells and numeric-looking string
//!   cells, with standard base-10 rules; out-of-range values are errors,
//!   never silent truncation;
//! - for every optional target, a `null` cell and an empty-string cell both
//!   read as absent (`None`) — the empty string is treated as semantically
//!   absent, not as a present empty value.

use vstd::prelude::*;
use crate::cell::CellValue;
use crate::cell::int_cell_spec;
use crate::cell::is_empty_text;
use crate::cell::string_cell_spec;
use crate::digits::parse_int_spec;
use crate::digits::parse_int_str;
use crate::error::TushareError;

verus! {

/// Converts one wire cell to a required value of the implementing type.
pub trait FromTushareValue: Sized {
    fn from_tushare_value(value: &CellValue) -> Result<Self, TushareError>;
}

/// Converts one wire cell to an optional value of the implementing type:
/// absent cells become `None` instead of failing.
pub trait FromOptionalTushareValue: Sized {
    fn from_optional_tushare_value(value: &CellValue) -> Result<Option<Self>, TushareError>;
}

/// A cell that every optional reading treats as absent.
pub open spec fn optional_absent(c: CellValue) -> bool {
    c is Null || is_empty_text(c)
}

// ---------------------------------------------------------------------------
// Case-insensitive vocabulary for boolean cells.
// ---------------------------------------------------------------------------

pub open spec fn ascii_lower_char(c: char) -> char {
    if 'A' <= c && c <= 'Z' {
        ((((c as u32) + 32) as u8) as char)
    } else {
        c
    }
}

pub open spec fn ascii_lower(s: Seq<char>) -> Seq<char> {
    s.map_values(|c: char| ascii_lower_char(c))
}

/// The fixed boolean vocabulary, compared case-insensitively.
pub open spec fn text_bool_spec(s: Seq<char>) -> Option<bool> {
    let l = ascii_lower(s);
    if l == "true"@ || l == "1"@ || l == "yes"@ || l == "y"@ {
        Some(true)
    } else if l == "false"@ || l == "0"@ || l == "no"@ || l == "n"@ || l.len() == 0 {
        Some(false)
    } else {
        None
    }
}

/// A number cell read as a boolean is "is it nonzero": integer text by its
/// value, anything else by the two zero renderings a wire number can have.
pub open spec fn number_bool_spec(t: Seq<char>) -> bool {
    match parse_int_spec(t) {
        Some(v) => v != 0,
        None => !(t == "0.0"@ || t == "-0.0"@),
    }
}

pub open spec fn bool_cell_spec(c: CellValue) -> Option<bool> {
    match c {
        CellValue::Bool(b) => Some(b),
        CellValue::Text(s) => text_bool_spec(s@),
        CellValue::Number(t) => Some(number_bool_spec(t@)),
        CellValue::Null => None,
    }
}

/// The Unicode code point a cell reads as when the target is a single
/// character: a one-character string cell, or a number cell holding a
/// valid scalar value.
pub open spec fn char_cell_code_spec(c: CellValue) -> Option<int> {
    match c {
        CellValue::Text(s) => if s@.len() == 1 { Some(s@[0] as int) } else { None },
        CellValue::Number(t) => match parse_int_spec(t@) {
            Some(v) => if (0 <= v && v < 0xD800) || (0xE000 <= v && v <= 0x10FFFF) {
                Some(v)
            } else {
                None
            },
            None => None,
        },
        _ => None,
    }
}

// ---------------------------------------------------------------------------
// Laws relating the readings.
// ---------------------------------------------------------------------------

/// Law: a null cell has no integer, boolean or character reading, so every
/// required reading at those targets rejects it; and a null cell is absent,
/// so every optional reading yields `None`.
pub proof fn lemma_null_cell(c: CellValue)
    requires
        c is Null,
    ensures
        int_cell_spec(c) is None,
        bool_cell_spec(c) is None,
        char_cell_code_spec(c) is None,
        optional_absent(c),
{
}

/// Law: an empty-string cell is absent for every optional target, so a
/// `None` encoded as the empty string reads back as `None`.
pub proof fn lemma_empty_text_reads_absent(s: String)
    requires
        s@.len() == 0,
    ensures
        optional_absent(CellValue::Text(s)),
{
}

/// Law: an integer target reads a numeric string cell and a number cell with
/// the same text identically — both go through the same integer-text reading.
pub proof fn lemma_number_and_text_agree(t: String)
    ensures
        int_cell_spec(CellValue::Number(t)) == int_cell_spec(CellValue::Text(t)),
{
}

/// Law: an optional string reading never yields a present empty string, so
/// decoding the encoding of `None` (the empty-string cell) round-trips to
/// `None`. The one cell left out is a number cell with empty text, which no
/// wire response produces: the transport renders every number as nonempty
/// text.
pub proof fn lemma_optional_string_never_empty(c: CellValue)
    requires
        !(c matches CellValue::Number(t) && t@.len() == 0),
    ensures
        !optional_absent(c) ==> string_cell_spec(c).len() > 0,
{
    reveal_strlit("true");
    reveal_strlit("false");
}

// ---------------------------------------------------------------------------
// Executable helpers.
// ---------------------------------------------------------------------------

fn lower_char(c: char) -> (r: char)
    ensures
        r == ascii_lower_char(c),
{
    let b = c as u32;
    if 65 <= b && b <= 90 {
        ((b + 32) as u8) as char
    } else {
        c
    }
}

/// Character-by-character equality of two pieces of text.
pub fn text_eq(a: &str, b: &str) -> (r: bool)
    ensures
        r == (a@ == b@),
{
    let n = a.unicode_len();
    let m = b.unicode_len();
    if n != m {
        return false;
    }
    let mut i: usize = 0;
    while i < n
        invariant
            0 <= i <= n,
            n == a@.len(),
            n == b@.len(),
            forall|j: int| 0 <= j < i ==> a@[j] == b@[j],
        decreases n - i,
    {
        if a.get_char(i) != b.get_char(i) {
            return false;
        }
        i = i + 1;
    }
    proof {
        assert(a@ =~= b@);
    }
    true
}

/// Does `s`, lowered ASCII-case-insensitively, equal `lit`?
fn ascii_lower_matches(s: &str, lit: &str) -> (r: bool)
    ensures
        r == (ascii_lower(s@) == lit@),
{
    let n = s.unicode_len();
    let m = lit.unicode_len();
    if n != m {
        proof {
            assert(ascii_lower(s@).len() == s@.len());
        }
        return false;
    }
    let mut i: usize = 0;
    while i < n
        invariant
            0 <= i <= n,
            n == s@.len(),
            n == lit@.len(),
            forall|j: int| 0 <= j < i ==> ascii_lower(s@)[j] == lit@[j],
        decreases n - i,
    {
        let c = lower_char(s.get_char(i));
        if c != lit.get_char(i) {
            proof {
                assert(ascii_lower(s@)[i as int] != lit@[i as int]);
            }
            return false;
        }
        i = i + 1;
    }
    proof {
        assert(ascii_lower(s@) =~= lit@);
    }
    true
}

/// The integer a cell reads as, clamped to the window every fixed-width
/// target of this crate lies inside; a magnitude beyond `u64::MAX` reports
/// `None`, exactly like a failed reading, since no target could hold it.
pub fn cell_int_value(value: &CellValue) -> (r: Option<i128>)
    ensures
        int_cell_spec(*value) is None ==> r is None,
        int_cell_spec(*value) matches Some(v) ==> {
            if -(u64::MAX as int) <= v <= u64::MAX as int {
                r matches Some(x) && x as int == v
            } else {
                r is None
            }
        },
{
    match value {
        CellValue::Number(t) => parse_int_str(t.as_str()),
        CellValue::Text(t) => parse_int_str(t.as_str()),
        _ => None,
    }
}

/// Builds the conversion error for a cell that has no reading at the target
/// type named by `target`.
fn cannot_convert_error(value: &CellValue, target: &'static str) -> (e: TushareError)
    ensures
        e is ParseError,
{
    match value {
        CellValue::Text(t) => {
            let mut m = "Cannot parse '".to_owned();
            m.append(t.as_str());
            m.append("' as ");
            m.append(target);
            TushareError::ParseError(m)
        },
        CellValue::Number(t) => {
            let mut m = "Cannot parse '".to_owned();
            m.append(t.as_str());
            m.append("' as ");
            m.append(target);
            TushareError::ParseError(m)
        },
        CellValue::Bool(_) => {
            let mut m = "Cannot convert boolean to ".to_owned();
            m.append(target);
            TushareError::ParseError(m)
        },
        CellValue::Null => {
            let mut m = "Cannot convert null to ".to_owned();
            m.append(target);
            TushareError::ParseError(m)
        },
    }
}

/// A cell that every optional reading treats as absent, decided at run time.
pub fn cell_is_absent(value: &CellValue) -> (r: bool)
    ensures
        r == optional_absent(*value),
{
    match value {
        CellValue::Null => true,
        CellValue::Text(s) => s.as_str().is_empty(),
        _ => false,
    }
}

/// Relies on core::char::from_u32: `Some` exactly for Unicode scalar values
/// (below the surrogate range, or between it and 0x10FFFF), and the returned
/// character has the given code.
#[verifier::external_body]
fn char_from_u32(v: u32) -> (r: Option<char>)
    ensures
        (r is Some) == (v < 0xD800 || (0xE000 <= v && v <= 0x10FFFF)),
        r matches Some(c) ==> c as int == v as int,
{
    char::from_u32(v)
}

// ---------------------------------------------------------------------------
// Required readings.
// ---------------------------------------------------------------------------

impl FromTushareValue for String {
    fn from_tushare_value(value: &CellValue) -> (r: Result<Self, TushareError>)
        ensures
            r matches Ok(s) && s@ == string_cell_spec(*value),
    {
        match value {
            CellValue::Text(s) => Ok(s.clone()),
            CellValue::Number(t) => Ok(t.clone()),
            CellValue::Bool(b) => Ok(if *b { "true".to_owned() } else { "false".to_owned() }),
            CellValue::Null => Ok(String::new()),
        }
    }
}

impl FromTushareValue for bool {
    fn from_tushare_value(value: &CellValue) -> (r: Result<Self, TushareError>)
        ensures
            bool_cell_spec(*value) matches Some(b) ==> (r matches Ok(x) && x == b),
            bool_cell_spec(*value) is None ==> (r matches Err(e) && e is ParseError),
    {
        match value {
            CellValue::Bool(b) => Ok(*b),
            CellValue::Text(s) => {
                let t = s.as_str();
                if ascii_lower_matches(t, "true") || ascii_lower_matches(t, "1")
                    || ascii_lower_matches(t, "yes") || ascii_lower_matches(t, "y") {
                    Ok(true)
                } else if ascii_lower_matches(t, "false") || ascii_lower_matches(t, "0")
                    || ascii_lower_matches(t, "no") || ascii_lower_matches(t, "n")
                    || t.is_empty() {
                    proof {
                        if s@.len() == 0 {
                            assert(ascii_lower(s@) =~= Seq::<char>::empty());
                        }
                    }
                    Ok(false)
                } else {
                    Err(cannot_convert_error(value, "bool"))
                }
            },
            CellValue::Number(t) => {
                match parse_int_str(t.as_str()) {
                    Some(x) => Ok(x != 0),
                    None => {
                        proof {
                            match parse_int_spec(t@) {
                                Some(v) => {
                                    // The magnitude exceeded u64::MAX, so the text
                                    // is all digits (after a sign) and cannot be a
                                    // zero rendering, which has a decimal point.
                                    reveal_strlit("0.0");
                                    reveal_strlit("-0.0");
                                    assert(t@ != "0.0"@ && t@ != "-0.0"@) by {
                                        if t@ == "0.0"@ {
                                            assert(t@[1] == '.');
                                            assert(parse_int_spec(t@) is None);
                                        }
                                        if t@ == "-0.0"@ {
                                            assert(t@.subrange(1, 4)[1] == '.');
                                            assert(parse_int_spec(t@) is None);
                                        }
                                    }
                                    assert(v > u64::MAX as int || v < -(u64::MAX as int));
                                },
                                None => {},
                            }
                        }
                        if text_eq(t.as_str(), "0.0") || text_eq(t.as_str(), "-0.0") {
                            Ok(false)
                        } else {
                            Ok(true)
                        }
                    },
                }
            },
            CellValue::Null => Err(cannot_convert_error(value, "bool")),
        }
    }
}

impl FromTushareValue for char {
    fn from_tushare_value(value: &CellValue) -> (r: Result<Self, TushareError>)
        ensures
            char_cell_code_spec(*value) matches Some(code) ==> (r matches Ok(c) && c as int == code),
            char_cell_code_spec(*value) is None ==> (r matches Err(e) && e is ParseError),
    {
        match value {
            CellValue::Text(s) => {
                if s.as_str().unicode_len() == 1 {
                    Ok(s.as_str().get_char(0))
                } else {
                    Err(cannot_convert_error(value, "char"))
                }
            },
            CellValue::Number(_) => {
                match cell_int_value(value) {
                    Some(x) => {
                        if 0 <= x && x <= 0x10FFFF {
                            match char_from_u32(x as u32) {
                                Some(c) => Ok(c),
                                None => Err(cannot_convert_error(value, "char")),
                            }
                        } else {
                            Err(cannot_convert_error(value, "char"))
                        }
                    },
                    None => Err(cannot_convert_error(value, "char")),
                }
            },
            _ => Err(cannot_convert_error(value, "char")),
        }
    }
}

impl FromTushareValue for i64 {
    fn from_tushare_value(value: &CellValue) -> (r: Result<Self, TushareError>)
        ensures
            int_cell_spec(*value) matches Some(v) ==> (if i64::MIN <= v <= i64::MAX {
                r matches Ok(x) && x as int == v
            } else {
                r matches Err(e) && e is ParseError
            }),
            int_cell_spec(*value) is None ==> (r matches Err(e) && e is ParseError),
    {
        match cell_int_value(value) {
            Some(x) => {
                if i64::MIN as i128 <= x && x <= i64::MAX as i128 {
                    Ok(x as i64)
                } else {
                    Err(cannot_convert_error(value, "i64"))
                }
            },
            None => Err(cannot_convert_error(value, "i64")),
        }
    }
}

impl FromTushareValue for i32 {
    fn from_tushare_value(value: &CellValue) -> (r: Result<Self, TushareError>)
        ensures
            int_cell_spec(*value) matches Some(v) ==> (if i32::MIN <= v <= i32::MAX {
                r matches Ok(x) && x as int == v
            } else {
                r matches Err(e) && e is ParseError
            }),
            int_cell_spec(*value) is None ==> (r matches Err(e) && e is ParseError),
    {
        match cell_int_value(value) {
            Some(x) => {
                if i32::MIN as i128 <= x && x <= i32::MAX as i128 {
                    Ok(x as i32)
                } else {
                    Err(cannot_convert_error(value, "i32"))
                }
            },
            None => Err(cannot_convert_error(value, "i32")),
        }
    }
}

impl FromTushareValue for i16 {
    fn from_tushare_value(value: &CellValue) -> (r: Result<Self, TushareError>)
        ensures
            int_cell_spec(*value) matches Some(v) ==> (if i16::MIN <= v <= i16::MAX {
                r matches Ok(x) && x as int == v
            } else {
                r matches Err(e) && e is ParseError
            }),
            int_cell_spec(*value) is None ==> (r matches Err(e) && e is ParseError),
    {
        match cell_int_value(value) {
            Some(x) => {
                if i16::MIN as i128 <= x && x <= i16::MAX as i128 {
                    Ok(x as i16)
                } else {
                    Err(cannot_convert_error(value, "i16"))
                }
            },
            None => Err(cannot_convert_error(value, "i16")),
        }
    }
}

impl FromTushareValue for i8 {
    fn from_tushare_value(value: &CellValue) -> (r: Result<Self, TushareError>)
        ensures
            int_cell_spec(*value) matches Some(v) ==> (if i8::MIN <= v <= i8::MAX {
                r matches Ok(x) && x as int == v
            } else {
                r matches Err(e) && e is ParseError
            }),
            int_cell_spec(*value) is None ==> (r matches Err(e) && e is ParseError),
    {
        match cell_int_value(value) {
            Some(x) => {
                if i8::MIN as i128 <= x && x <= i8::MAX as i128 {
                    Ok(x as i8)
                } else {
                    Err(cannot_convert_error(value, "i8"))
                }
            },
            None => Err(cannot_convert_error(value, "i8")),
        }
    }
}

impl FromTushareValue for isize {
    fn from_tushare_value(value: &CellValue) -> (r: Result<Self, TushareError>)
        ensures
            int_cell_spec(*value) matches Some(v) ==> (if isize::MIN <= v <= isize::MAX {
                r matches Ok(x) && x as int == v
            } else {
                r matches Err(e) && e is ParseError
            }),
            int_cell_spec(*value) is None ==> (r matches Err(e) && e is ParseError),
    {
        match cell_int_value(value) {
            Some(x) => {
                if isize::MIN as i128 <= x && x <= isize::MAX as i128 {
                    Ok(x as isize)
                } else {
                    Err(cannot_convert_error(value, "isize"))
                }
            },
            None => Err(cannot_convert_error(value, "isize")),
        }
    }
}

impl FromTushareValue for u64 {
    fn from_tushare_value(value: &CellValue) -> (r: Result<Self, TushareError>)
        ensures
            int_cell_spec(*value) matches Some(v) ==> (if 0 <= v <= u64::MAX {
                r matches Ok(x) && x as int == v
            } else {
                r matches Err(e) && e is ParseError
            }),
            int_cell_spec(*value) is None ==> (r matches Err(e) && e is ParseError),
    {
        match cell_int_value(value) {
            Some(x) => {
                if 0 <= x && x <= u64::MAX as i128 {
                    Ok(x as u64)
                } else {
                    Err(cannot_convert_error(value, "u64"))
                }
            },
            None => Err(cannot_convert_error(value, "u64")),
        }
    }
}

impl FromTushareValue for u32 {
    fn from_tushare_value(value: &CellValue) -> (r: Result<Self, TushareError>)
        ensures
            int_cell_spec(*value) matches Some(v) ==> (if 0 <= v <= u32::MAX {
                r matches Ok(x) && x as int == v
            } else {
                r matches Err(e) && e is ParseError
            }),
            int_cell_spec(*value) is None ==> (r matches Err(e) && e is ParseError),
    {
        match cell_int_value(value) {
            Some(x) => {
                if 0 <= x && x <= u32::MAX as i128 {
                    Ok(x as u32)
                } else {
                    Err(cannot_convert_error(value, "u32"))
                }
            },
            None => Err(cannot_convert_error(value, "u32")),
        }
    }
}

impl FromTushareValue for u16 {
    fn from_tushare_value(value: &CellValue) -> (r: Result<Self, TushareError>)
        ensures
            int_cell_spec(*value) matches Some(v) ==> (if 0 <= v <= u16::MAX {
                r matches Ok(x) && x as int == v
            } else {
                r matches Err(e) && e is ParseError
            }),
            int_cell_spec(*value) is None ==> (r matches Err(e) && e is ParseError),
    {
        match cell_int_value(value) {
            Some(x) => {
                if 0 <= x && x <= u16::MAX as i128 {
                    Ok(x as u16)
                } else {
                    Err(cannot_convert_error(value, "u16"))
                }
            },
            None => Err(cannot_convert_error(value, "u16")),
        }
    }
}

impl FromTushareValue for u8 {
    fn from_tushare_value(value: &CellValue) -> (r: Result<Self, TushareError>)
        ensures
            int_cell_spec(*value) matches Some(v) ==> (if 0 <= v <= u8::MAX {
                r matches Ok(x) && x as int == v
            } else {
                r matches Err(e) && e is ParseError
            }),
            int_cell_spec(*value) is None ==> (r matches Err(e) && e is ParseError),
    {
        match cell_int_value(value) {
            Some(x) => {
                if 0 <= x && x <= u8::MAX as i128 {
                    Ok(x as u8)
                } else {
                    Err(cannot_convert_error(value, "u8"))
                }
            },
            None => Err(cannot_convert_error(value, "u8")),
        }
    }
}

impl FromTushareValue for usize {
    fn from_tushare_value(value: &CellValue) -> (r: Result<Self, TushareError>)
        ensures
            int_cell_spec(*value) matches Some(v) ==> (if 0 <= v <= usize::MAX {
                r matches Ok(x) && x as int == v
            } else {
                r matches Err(e) && e is ParseError
            }),
            int_cell_spec(*value) is None ==> (r matches Err(e) && e is ParseError),
    {
        match cell_int_value(value) {
            Some(x) => {
                if 0 <= x && x <= usize::MAX as i128 {
                    Ok(x as usize)
                } else {
                    Err(cannot_convert_error(value, "usize"))
                }
            },
            None => Err(cannot_convert_error(value, "usize")),
        }
    }
}

// ---------------------------------------------------------------------------
// Optional readings: a null cell or an empty-string cell is absent.
// ---------------------------------------------------------------------------

impl FromOptionalTushareValue for String {
    fn from_optional_tushare_value(value: &CellValue) -> (r: Result<Option<Self>, TushareError>)
        ensures
            optional_absent(*value) ==> (r matches Ok(o) && o is None),
            !optional_absent(*value)
                ==> (r matches Ok(o) && o matches Some(s) && s@ == string_cell_spec(*value)),
    {
        if cell_is_absent(value) {
            return Ok(None);
        }
        match String::from_tushare_value(value) {
            Ok(s) => Ok(Some(s)),
            Err(e) => Err(e),
        }
    }
}

impl FromOptionalTushareValue for bool {
    fn from_optional_tushare_value(value: &CellValue) -> (r: Result<Option<Self>, TushareError>)
        ensures
            optional_absent(*value) ==> (r matches Ok(o) && o is None),
            !optional_absent(*value) ==> {
                &&& (bool_cell_spec(*value) matches Some(b)
                        ==> (r matches Ok(o) && o matches Some(x) && x == b))
                &&& (bool_cell_spec(*value) is None ==> (r matches Err(e) && e is ParseError))
            },
    {
        if cell_is_absent(value) {
            return Ok(None);
        }
        match bool::from_tushare_value(value) {
            Ok(b) => Ok(Some(b)),
            Err(e) => Err(e),
        }
    }
}

impl FromOptionalTushareValue for char {
    fn from_optional_tushare_value(value: &CellValue) -> (r: Result<Option<Self>, TushareError>)
        ensures
            optional_absent(*value) ==> (r matches Ok(o) && o is None),
            !optional_absent(*value) ==> {
                &&& (char_cell_code_spec(*value) matches Some(code)
                        ==> (r matches Ok(o) && o matches Some(c) && c as int == code))
                &&& (char_cell_code_spec(*value) is None
                        ==> (r matches Err(e) && e is ParseError))
            },
    {
        if cell_is_absent(value) {
            return Ok(None);
        }
        match char::from_tushare_value(value) {
            Ok(c) => Ok(Some(c)),
            Err(e) => Err(e),
        }
    }
}

impl FromOptionalTushareValue for i64 {
    fn from_optional_tushare_value(value: &CellValue) -> (r: Result<Option<Self>, TushareError>)
        ensures
            optional_absent(*value) ==> (r matches Ok(o) && o is None),
            !optional_absent(*value) ==> {
                &&& (int_cell_spec(*value) matches Some(v) ==> (if i64::MIN <= v <= i64::MAX {
                        r matches Ok(o) && o matches Some(x) && x as int == v
                    } else {
                        r matches Err(e) && e is ParseError
                    }))
                &&& (int_cell_spec(*value) is None ==> (r matches Err(e) && e is ParseError))
            },
    {
        if cell_is_absent(value) {
            return Ok(None);
        }
        match i64::from_tushare_value(value) {
            Ok(x) => Ok(Some(x)),
            Err(e) => Err(e),
        }
    }
}

impl FromOptionalTushareValue for i32 {
    fn from_optional_tushare_value(value: &CellValue) -> (r: Result<Option<Self>, TushareError>)
        ensures
            optional_absent(*value) ==> (r matches Ok(o) && o is None),
            !optional_absent(*value) ==> {
                &&& (int_cell_spec(*value) matches Some(v) ==> (if i32::MIN <= v <= i32::MAX {
                        r matches Ok(o) && o matches Some(x) && x as int == v
                    } else {
                        r matches Err(e) && e is ParseError
                    }))
                &&& (int_cell_spec(*value) is None ==> (r matches Err(e) && e is ParseError))
            },
    {
        if cell_is_absent(value) {
            return Ok(None);
        }
        match i32::from_tushare_value(value) {
            Ok(x) => Ok(Some(x)),
            Err(e) => Err(e),
        }
    }
}

impl FromOptionalTushareValue for i16 {
    fn from_optional_tushare_value(value: &CellValue) -> (r: Result<Option<Self>, TushareError>)
        ensures
            optional_absent(*value) ==> (r matches Ok(o) && o is None),
            !optional_absent(*value) ==> {
                &&& (int_cell_spec(*value) matches Some(v) ==> (if i16::MIN <= v <= i16::MAX {
                        r matches Ok(o) && o matches Some(x) && x as int == v
                    } else {
                        r matches Err(e) && e is ParseError
                    }))
                &&& (int_cell_spec(*value) is None ==> (r matches Err(e) && e is ParseError))
            },
    {
        if cell_is_absent(value) {
            return Ok(None);
        }
        match i16::from_tushare_value(value) {
            Ok(x) => Ok(Some(x)),
            Err(e) => Err(e),
        }
    }
}

impl FromOptionalTushareValue for i8 {
    fn from_optional_tushare_value(value: &CellValue) -> (r: Result<Option<Self>, TushareError>)
        ensures
            optional_absent(*value) ==> (r matches Ok(o) && o is None),
            !optional_absent(*value) ==> {
                &&& (int_cell_spec(*value) matches Some(v) ==> (if i8::MIN <= v <= i8::MAX {
                        r matches Ok(o) && o matches Some(x) && x as int == v
                    } else {
                        r matches Err(e) && e is ParseError
                    }))
                &&& (int_cell_spec(*value) is None ==> (r matches Err(e) && e is ParseError))
            },
    {
        if cell_is_absent(value) {
            return Ok(None);
        }
        match i8::from_tushare_value(value) {
            Ok(x) => Ok(Some(x)),
            Err(e) => Err(e),
        }
    }
}

impl FromOptionalTushareValue for isize {
    fn from_optional_tushare_value(value: &CellValue) -> (r: Result<Option<Self>, TushareError>)
        ensures
            optional_absent(*value) ==> (r matches Ok(o) && o is None),
            !optional_absent(*value) ==> {
                &&& (int_cell_spec(*value) matches Some(v) ==> (if isize::MIN <= v <= isize::MAX {
                        r matches Ok(o) && o matches Some(x) && x as int == v
                    } else {
                        r matches Err(e) && e is ParseError
                    }))
                &&& (int_cell_spec(*value) is None ==> (r matches Err(e) && e is ParseError))
            },
    {
        if cell_is_absent(value) {
            return Ok(None);
        }
        match isize::from_tushare_value(value) {
            Ok(x) => Ok(Some(x)),
            Err(e) => Err(e),
        }
    }
}

impl FromOptionalTushareValue for u64 {
    fn from_optional_tushare_value(value: &CellValue) -> (r: Result<Option<Self>, TushareError>)
        ensures
            optional_absent(*value) ==> (r matches Ok(o) && o is None),
            !optional_absent(*value) ==> {
                &&& (int_cell_spec(*value) matches Some(v) ==> (if 0 <= v <= u64::MAX {
                        r matches Ok(o) && o matches Some(x) && x as int == v
                    } else {
                        r matches Err(e) && e is ParseError
                    }))
                &&& (int_cell_spec(*value) is None ==> (r matches Err(e) && e is ParseError))
            },
    {
        if cell_is_absent(value) {
            return Ok(None);
        }
        match u64::from_tushare_value(value) {
            Ok(x) => Ok(Some(x)),
            Err(e) => Err(e),
        }
    }
}

impl FromOptionalTushareValue for u32 {
    fn from_optional_tushare_value(value: &CellValue) -> (r: Result<Option<Self>, TushareError>)
        ensures
            optional_absent(*value) ==> (r matches Ok(o) && o is None),
            !optional_absent(*value) ==> {
                &&& (int_cell_spec(*value) matches Some(v) ==> (if 0 <= v <= u32::MAX {
                        r matches Ok(o) && o matches Some(x) && x as int == v
                    } else {
                        r matches Err(e) && e is ParseError
                    }))
                &&& (int_cell_spec(*value) is None ==> (r matches Err(e) && e is ParseError))
            },
    {
        if cell_is_absent(value) {
            return Ok(None);
        }
        match u32::from_tushare_value(value) {
            Ok(x) => Ok(Some(x)),
            Err(e) => Err(e),
        }
    }
}

impl FromOptionalTushareValue for u16 {
    fn from_optional_tushare_value(value: &CellValue) -> (r: Result<Option<Self>, TushareError>)
        ensures
            optional_absent(*value) ==> (r matches Ok(o) && o is None),
            !optional_absent(*value) ==> {
                &&& (int_cell_spec(*value) matches Some(v) ==> (if 0 <= v <= u16::MAX {
                        r matches Ok(o) && o matches Some(x) && x as int == v
                    } else {
                        r matches Err(e) && e is ParseError
                    }))
                &&& (int_cell_spec(*value) is None ==> (r matches Err(e) && e is ParseError))
            },
    {
        if cell_is_absent(value) {
            return Ok(None);
        }
        match u16::from_tushare_value(value) {
            Ok(x) => Ok(Some(x)),
            Err(e) => Err(e),
        }
    }
}

impl FromOptionalTushareValue for u8 {
    fn from_optional_tushare_value(value: &CellValue) -> (r: Result<Option<Self>, TushareError>)
        ensures
            optional_absent(*value) ==> (r matches Ok(o) && o is None),
            !optional_absent(*value) ==> {
                &&& (int_cell_spec(*value) matches Some(v) ==> (if 0 <= v <= u8::MAX {
                        r matches Ok(o) && o matches Some(x) && x as int == v
                    } else {
                        r matches Err(e) && e is ParseError
                    }))
                &&& (int_cell_spec(*value) is None ==> (r matches Err(e) && e is ParseError))
            },
    {
        if cell_is_absent(value) {
            return Ok(None);
        }
        match u8::from_tushare_value(value) {
            Ok(x) => Ok(Some(x)),
            Err(e) => Err(e),
        }
    }
}

impl FromOptionalTushareValue for usize {
    fn from_optional_tushare_value(value: &CellValue) -> (r: Result<Option<Self>, TushareError>)
        ensures
            optional_absent(*value) ==> (r matches Ok(o) && o is None),
            !optional_absent(*value) ==> {
                &&& (int_cell_spec(*value) matches Some(v) ==> (if 0 <= v <= usize::MAX {
                        r matches Ok(o) && o matches Some(x) && x as int == v
                    } else {
                        r matches Err(e) && e is ParseError
                    }))
                &&& (int_cell_spec(*value) is None ==> (r matches Err(e) && e is ParseError))
            },
    {
        if cell_is_absent(value) {
            return Ok(None);
        }
        match usize::from_tushare_value(value) {
            Ok(x) => Ok(Some(x)),
            Err(e) => Err(e),
        }
    }
}

} // verus!
