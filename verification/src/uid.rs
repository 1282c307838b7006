//! Universally unique identifiers, held as their plain 128-bit value.
//! Which texts denote a UUID (hyphenated, simple, braced, URN) is the
//! parser's business and is only named here.

use vstd::prelude::*;
use crate::cell::CellValue;
use crate::convert::FromTushareValue;
use crate::convert::FromOptionalTushareValue;
use crate::convert::cell_is_absent;
use crate::convert::optional_absent;
use crate::error::TushareError;

verus! {

/// A universally unique identifier, as its 128-bit value.
#[derive(Debug, Clone, Copy, PartialEq, Eq, Structural, Hash)]
pub struct Uuid {
    pub value: u128,
}

/// The identifier that the parser reads out of `s`, if any.
pub uninterp spec fn uuid_of(s: Seq<char>) -> Option<int>;

/// Relies on uuid's `Uuid::parse_str`: whether the text parses, and the
/// resulting 128-bit value, depend on the text alone.
#[verifier::external_body]
fn parse_uuid_text(s: &str) -> (r: Option<Uuid>)
    ensures
        r matches Some(u) ==> uuid_of(s@) == Some(u.value as int),
        r is None ==> uuid_of(s@) is None,
{
    match ::uuid::Uuid::parse_str(s) {
        Ok(u) => Some(Uuid { value: u.as_u128() }),
        Err(_) => None,
    }
}

/// What a cell reads as at a UUID target: string cells only.
pub open spec fn uuid_cell_spec(c: CellValue) -> Option<int> {
    match c {
        CellValue::Text(s) => uuid_of(s@),
        _ => None,
    }
}

impl FromTushareValue for Uuid {
    fn from_tushare_value(value: &CellValue) -> (r: Result<Self, TushareError>)
        ensures
            uuid_cell_spec(*value) matches Some(v)
                ==> (r matches Ok(u) && u.value as int == v),
            uuid_cell_spec(*value) is None ==> (r matches Err(e) && e is ParseError),
    {
        let parsed = match value {
            CellValue::Text(s) => parse_uuid_text(s.as_str()),
            _ => None,
        };
        match parsed {
            Some(u) => Ok(u),
            None => Err(TushareError::ParseError("Cannot convert cell to UUID".to_owned())),
        }
    }
}

impl FromOptionalTushareValue for Uuid {
    fn from_optional_tushare_value(value: &CellValue) -> (r: Result<Option<Self>, TushareError>)
        ensures
            optional_absent(*value) ==> (r matches Ok(o) && o is None),
            !optional_absent(*value) ==> {
                &&& (uuid_cell_spec(*value) matches Some(v)
                        ==> (r matches Ok(o) && o matches Some(u) && u.value as int == v))
                &&& (uuid_cell_spec(*value) is None ==> (r matches Err(e) && e is ParseError))
            },
    {
        if cell_is_absent(value) {
            return Ok(None);
        }
        match Uuid::from_tushare_value(value) {
            Ok(u) => Ok(Some(u)),
            Err(e) => Err(e),
        }
    }
}

} // verus!
