//! Helpers for hand-written row conversions: locate a field's cell by
//! column name and read it strictly at one type.
//!
//! Unlike the coercion engine, these accessors do not coerce across cell
//! kinds: a string field wants a string cell, an integer field a number
//! cell, a boolean field a boolean cell.

use vstd::prelude::*;
use crate::cell::CellValue;
use crate::digits::parse_int_spec;
use crate::digits::parse_int_str;
use crate::error::TushareError;
use crate::mapper::FromTushareData;
use crate::mapper::column_index;
use crate::mapper::find_column;
use crate::mapper::missing_field_message;
use crate::types::TushareEntityList;
use crate::types::TushareResponse;

verus! {

/// Converts a whole response into entities, one per row, stopping at the
/// first failing row; a response without a table yields no entities.
pub fn response_to_vec<T: FromTushareData>(response: TushareResponse) -> (r: Result<
    Vec<T>,
    TushareError,
>)
    ensures
        r matches Ok(v) ==> (match response.data {
            Some(d) => v@.len() == d.items@.len(),
            None => v@.len() == 0,
        }),
        response.data is None ==> r is Ok,
        r is Err ==> (response.data matches Some(d) && d.items@.len() > 0),
{
    let data = match &response.data {
        Some(d) => d,
        None => {
            return Ok(Vec::new());
        },
    };
    let n = data.items.len();
    let mut out: Vec<T> = Vec::new();
    let mut i: usize = 0;
    while i < n
        invariant
            0 <= i <= n,
            response.data matches Some(d) && d == *data,
            n == data.items@.len(),
            out@.len() == i,
        decreases n - i,
    {
        match T::from_row(data.fields.as_slice(), data.items[i].as_slice()) {
            Ok(item) => out.push(item),
            Err(e) => {
                return Err(e);
            },
        }
        i = i + 1;
    }
    Ok(out)
}

/// Converts a whole response into a paginated entity list, carrying the
/// table's page metadata over; a response without a table yields the empty
/// complete page.
pub fn entity_list_from_response<T: FromTushareData>(response: TushareResponse) -> (r: Result<
    TushareEntityList<T>,
    TushareError,
>)
    ensures
        r matches Ok(l) ==> (match response.data {
            Some(d) => l.items@.len() == d.items@.len() && l.has_more == d.has_more && l.count
                == d.count,
            None => l.items@.len() == 0 && l.has_more == false && l.count == 0,
        }),
        response.data is None ==> r is Ok,
        r is Err ==> (response.data matches Some(d) && d.items@.len() > 0),
{
    let data = match &response.data {
        Some(d) => d,
        None => {
            return Ok(TushareEntityList::new(Vec::new(), false, 0));
        },
    };
    let n = data.items.len();
    let mut out: Vec<T> = Vec::new();
    let mut i: usize = 0;
    while i < n
        invariant
            0 <= i <= n,
            response.data matches Some(d) && d == *data,
            n == data.items@.len(),
            out@.len() == i,
        decreases n - i,
    {
        match T::from_row(data.fields.as_slice(), data.items[i].as_slice()) {
            Ok(item) => out.push(item),
            Err(e) => {
                return Err(e);
            },
        }
        i = i + 1;
    }
    Ok(TushareEntityList::new(out, data.has_more, data.count))
}

// ---------------------------------------------------------------------------
// Field accessors.
// ---------------------------------------------------------------------------

/// Locates the cell for a field by column name.
pub fn get_field_value<'a>(
    fields: &[String],
    values: &'a [CellValue],
    field_name: &str,
) -> (r: Result<&'a CellValue, TushareError>)
    ensures
        column_index(fields@, field_name@) matches Some(i) ==> (if i < values@.len() {
            r matches Ok(c) && *c == values@[i]
        } else {
            r matches Err(e) && e is ParseError
        }),
        column_index(fields@, field_name@) is None
            ==> (r matches Err(e) && e matches TushareError::ParseError(m)
                && m@ == missing_field_message(field_name@)),
{
    match find_column(fields, field_name) {
        Some(i) => {
            if i < values.len() {
                Ok(&values[i])
            } else {
                let mut m = "Value not found for field: ".to_owned();
                m.append(field_name);
                Err(TushareError::ParseError(m))
            }
        },
        None => {
            let mut m = "Missing field: ".to_owned();
            m.append(field_name);
            Err(TushareError::ParseError(m))
        },
    }
}

/// What a strictly-read string field holds: string cells only.
pub open spec fn strict_string_spec(c: CellValue) -> Option<Seq<char>> {
    match c {
        CellValue::Text(s) => Some(s@),
        _ => None,
    }
}

/// What a strictly-read integer field holds: number cells with integer
/// text in `i64` range only.
pub open spec fn strict_int_spec(c: CellValue) -> Option<int> {
    match c {
        CellValue::Number(t) => match parse_int_spec(t@) {
            Some(v) => if i64::MIN <= v <= i64::MAX {
                Some(v)
            } else {
                None
            },
            None => None,
        },
        _ => None,
    }
}

/// What a strictly-read boolean field holds: boolean cells only.
pub open spec fn strict_bool_spec(c: CellValue) -> Option<bool> {
    match c {
        CellValue::Bool(b) => Some(b),
        _ => None,
    }
}

/// Reads a required string field strictly.
pub fn get_string_field(fields: &[String], values: &[CellValue], field_name: &str) -> (r: Result<
    String,
    TushareError,
>)
    ensures
        column_index(fields@, field_name@) matches Some(i) ==> (if i < values@.len() {
            match strict_string_spec(values@[i]) {
                Some(t) => r matches Ok(s) && s@ == t,
                None => r matches Err(e) && e is ParseError,
            }
        } else {
            r matches Err(e) && e is ParseError
        }),
        column_index(fields@, field_name@) is None
            ==> (r matches Err(e) && e matches TushareError::ParseError(m)
                && m@ == missing_field_message(field_name@)),
{
    let cell = match get_field_value(fields, values, field_name) {
        Ok(c) => c,
        Err(e) => {
            return Err(e);
        },
    };
    match cell {
        CellValue::Text(s) => Ok(s.clone()),
        _ => {
            let mut m = "Field ".to_owned();
            m.append(field_name);
            m.append(" is not a string");
            Err(TushareError::ParseError(m))
        },
    }
}

/// Reads an optional string field strictly: a missing column or a null
/// cell is absent.
pub fn get_optional_string_field(
    fields: &[String],
    values: &[CellValue],
    field_name: &str,
) -> (r: Result<Option<String>, TushareError>)
    ensures
        column_index(fields@, field_name@) matches Some(i) ==> (if i < values@.len() {
            if values@[i] is Null {
                r matches Ok(o) && o is None
            } else {
                match strict_string_spec(values@[i]) {
                    Some(t) => r matches Ok(o) && o matches Some(s) && s@ == t,
                    None => r matches Err(e) && e is ParseError,
                }
            }
        } else {
            r matches Ok(o) && o is None
        }),
        column_index(fields@, field_name@) is None ==> (r matches Ok(o) && o is None),
{
    let cell = match get_field_value(fields, values, field_name) {
        Ok(c) => c,
        Err(_) => {
            return Ok(None);
        },
    };
    match cell {
        CellValue::Null => Ok(None),
        CellValue::Text(s) => Ok(Some(s.clone())),
        _ => {
            let mut m = "Field ".to_owned();
            m.append(field_name);
            m.append(" is not a string");
            Err(TushareError::ParseError(m))
        },
    }
}

/// Reads a required integer field strictly.
pub fn get_int_field(fields: &[String], values: &[CellValue], field_name: &str) -> (r: Result<
    i64,
    TushareError,
>)
    ensures
        column_index(fields@, field_name@) matches Some(i) ==> (if i < values@.len() {
            match strict_int_spec(values@[i]) {
                Some(v) => r matches Ok(x) && x as int == v,
                None => r matches Err(e) && e is ParseError,
            }
        } else {
            r matches Err(e) && e is ParseError
        }),
        column_index(fields@, field_name@) is None
            ==> (r matches Err(e) && e matches TushareError::ParseError(m)
                && m@ == missing_field_message(field_name@)),
{
    let cell = match get_field_value(fields, values, field_name) {
        Ok(c) => c,
        Err(e) => {
            return Err(e);
        },
    };
    let parsed = match cell {
        CellValue::Number(t) => parse_int_str(t.as_str()),
        _ => None,
    };
    match parsed {
        Some(x) => {
            if i64::MIN as i128 <= x && x <= i64::MAX as i128 {
                return Ok(x as i64);
            }
            let mut m = "Field ".to_owned();
            m.append(field_name);
            m.append(" is not an integer");
            Err(TushareError::ParseError(m))
        },
        None => {
            let mut m = "Field ".to_owned();
            m.append(field_name);
            m.append(" is not an integer");
            Err(TushareError::ParseError(m))
        },
    }
}

/// Reads an optional integer field strictly: a missing column or a null
/// cell is absent.
pub fn get_optional_int_field(
    fields: &[String],
    values: &[CellValue],
    field_name: &str,
) -> (r: Result<Option<i64>, TushareError>)
    ensures
        column_index(fields@, field_name@) matches Some(i) ==> (if i < values@.len() {
            if values@[i] is Null {
                r matches Ok(o) && o is None
            } else {
                match strict_int_spec(values@[i]) {
                    Some(v) => r matches Ok(o) && o matches Some(x) && x as int == v,
                    None => r matches Err(e) && e is ParseError,
                }
            }
        } else {
            r matches Ok(o) && o is None
        }),
        column_index(fields@, field_name@) is None ==> (r matches Ok(o) && o is None),
{
    let cell = match get_field_value(fields, values, field_name) {
        Ok(c) => c,
        Err(_) => {
            return Ok(None);
        },
    };
    if cell.is_null() {
        return Ok(None);
    }
    let parsed = match cell {
        CellValue::Number(t) => parse_int_str(t.as_str()),
        _ => None,
    };
    match parsed {
        Some(x) => {
            if i64::MIN as i128 <= x && x <= i64::MAX as i128 {
                return Ok(Some(x as i64));
            }
            let mut m = "Field ".to_owned();
            m.append(field_name);
            m.append(" is not an integer");
            Err(TushareError::ParseError(m))
        },
        None => {
            let mut m = "Field ".to_owned();
            m.append(field_name);
            m.append(" is not an integer");
            Err(TushareError::ParseError(m))
        },
    }
}

/// Reads a required boolean field strictly.
pub fn get_bool_field(fields: &[String], values: &[CellValue], field_name: &str) -> (r: Result<
    bool,
    TushareError,
>)
    ensures
        column_index(fields@, field_name@) matches Some(i) ==> (if i < values@.len() {
            match strict_bool_spec(values@[i]) {
                Some(b) => r matches Ok(x) && x == b,
                None => r matches Err(e) && e is ParseError,
            }
        } else {
            r matches Err(e) && e is ParseError
        }),
        column_index(fields@, field_name@) is None
            ==> (r matches Err(e) && e matches TushareError::ParseError(m)
                && m@ == missing_field_message(field_name@)),
{
    let cell = match get_field_value(fields, values, field_name) {
        Ok(c) => c,
        Err(e) => {
            return Err(e);
        },
    };
    match cell {
        CellValue::Bool(b) => Ok(*b),
        _ => {
            let mut m = "Field ".to_owned();
            m.append(field_name);
            m.append(" is not a boolean");
            Err(TushareError::ParseError(m))
        },
    }
}

/// Reads an optional boolean field strictly: a missing column or a null
/// cell is absent.
pub fn get_optional_bool_field(
    fields: &[String],
    values: &[CellValue],
    field_name: &str,
) -> (r: Result<Option<bool>, TushareError>)
    ensures
        column_index(fields@, field_name@) matches Some(i) ==> (if i < values@.len() {
            if values@[i] is Null {
                r matches Ok(o) && o is None
            } else {
                match strict_bool_spec(values@[i]) {
                    Some(b) => r matches Ok(o) && o matches Some(x) && x == b,
                    None => r matches Err(e) && e is ParseError,
                }
            }
        } else {
            r matches Ok(o) && o is None
        }),
        column_index(fields@, field_name@) is None ==> (r matches Ok(o) && o is None),
{
    let cell = match get_field_value(fields, values, field_name) {
        Ok(c) => c,
        Err(_) => {
            return Ok(None);
        },
    };
    match cell {
        CellValue::Null => Ok(None),
        CellValue::Bool(b) => Ok(Some(*b)),
        _ => {
            let mut m = "Field ".to_owned();
            m.append(field_name);
            m.append(" is not a boolean");
            Err(TushareError::ParseError(m))
        },
    }
}

} // verus!
