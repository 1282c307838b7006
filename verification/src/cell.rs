//! The wire cell: one untyped scalar inside a response row.
//!
//! A number arrives as the decimal text the transport rendered for it; all
//! numeric readings in this crate are specified over that text.

use vstd::prelude::*;
use crate::digits::parse_int_spec;

verus! {

/// One untyped scalar value of a response row.
#[derive(Debug, Clone, PartialEq)]
pub enum CellValue {
    Null,
    Bool(bool),
    /// A numeric cell, held as its decimal text (e.g. `123`, `-4.5`).
    Number(String),
    /// A string cell.
    Text(String),
}

/// The policy that treats an empty string cell as an absent value.
pub open spec fn is_empty_text(c: CellValue) -> bool {
    &&& c matches CellValue::Text(s)
    &&& s@.len() == 0
}

/// What a cell reads as when the target is a string: every cell has one.
pub open spec fn string_cell_spec(c: CellValue) -> Seq<char> {
    match c {
        CellValue::Text(s) => s@,
        CellValue::Number(t) => t@,
        CellValue::Bool(b) => if b { "true"@ } else { "false"@ },
        CellValue::Null => Seq::<char>::empty(),
    }
}

/// What a cell reads as when the target is an integer: number and string
/// cells are both read as base-10 integer text.
pub open spec fn int_cell_spec(c: CellValue) -> Option<int> {
    match c {
        CellValue::Number(t) => parse_int_spec(t@),
        CellValue::Text(t) => parse_int_spec(t@),
        _ => None,
    }
}

impl CellValue {
    /// True for the `Null` cell.
    pub fn is_null(&self) -> (r: bool)
        ensures
            r == (*self is Null),
    {
        matches!(self, CellValue::Null)
    }
}

} // verus!
