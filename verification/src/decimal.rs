//! Exact decimal values, held as a plain mantissa and scale: the value is
//! `mantissa / 10^scale`. [`Decimal`] is fixed-width; [`BigDecimal`] keeps
//! its unscaled integer as decimal text and has no width limit. What a
//! given piece of text denotes is the respective parser's business and is
//! only named here.

use vstd::prelude::*;
use crate::cell::CellValue;
use crate::convert::FromTushareValue;
use crate::convert::FromOptionalTushareValue;
use crate::convert::cell_is_absent;
use crate::convert::optional_absent;
use crate::error::TushareError;

verus! {

/// A decimal number: `mantissa / 10^scale`.
#[derive(Debug, Clone, Copy, PartialEq, Eq, Structural, Hash)]
pub struct Decimal {
    pub mantissa: i128,
    pub scale: u32,
}

impl Decimal {
    /// The mantissa magnitude fits 96 bits and the scale is at most 28.
    pub open spec fn wf(self) -> bool {
        &&& self.scale <= 28
        &&& -0x1000000000000000000000000 < self.mantissa < 0x1000000000000000000000000
    }
}

/// The decimal that the parser reads out of `s`, if any, as
/// (mantissa, scale).
pub uninterp spec fn decimal_of(s: Seq<char>) -> Option<(int, int)>;

/// Relies on rust_decimal's `FromStr` for `Decimal`: whether the text
/// parses, and the resulting mantissa and scale, depend on the text alone;
/// a parsed mantissa fits 96 bits and a parsed scale is at most 28.
#[verifier::external_body]
fn parse_decimal_text(s: &str) -> (r: Option<Decimal>)
    ensures
        r matches Some(d)
            ==> (decimal_of(s@) == Some((d.mantissa as int, d.scale as int)) && d.wf()),
        r is None ==> decimal_of(s@) is None,
{
    match s.parse::<rust_decimal::Decimal>() {
        Ok(d) => Some(Decimal { mantissa: d.mantissa(), scale: d.scale() }),
        Err(_) => None,
    }
}

/// What a cell reads as at a decimal target: string and number cells are
/// both read as decimal text.
pub open spec fn decimal_cell_spec(c: CellValue) -> Option<(int, int)> {
    match c {
        CellValue::Text(s) => decimal_of(s@),
        CellValue::Number(t) => decimal_of(t@),
        _ => None,
    }
}

impl FromTushareValue for Decimal {
    fn from_tushare_value(value: &CellValue) -> (r: Result<Self, TushareError>)
        ensures
            decimal_cell_spec(*value) matches Some(p)
                ==> (r matches Ok(d) && (d.mantissa as int, d.scale as int) == p && d.wf()),
            decimal_cell_spec(*value) is None ==> (r matches Err(e) && e is ParseError),
    {
        let parsed = match value {
            CellValue::Text(s) => parse_decimal_text(s.as_str()),
            CellValue::Number(t) => parse_decimal_text(t.as_str()),
            _ => None,
        };
        match parsed {
            Some(d) => Ok(d),
            None => Err(TushareError::ParseError(
                "Cannot convert cell to decimal".to_owned(),
            )),
        }
    }
}

impl FromOptionalTushareValue for Decimal {
    fn from_optional_tushare_value(value: &CellValue) -> (r: Result<Option<Self>, TushareError>)
        ensures
            optional_absent(*value) ==> (r matches Ok(o) && o is None),
            !optional_absent(*value) ==> {
                &&& (decimal_cell_spec(*value) matches Some(p)
                        ==> (r matches Ok(o) && o matches Some(d)
                            && (d.mantissa as int, d.scale as int) == p && d.wf()))
                &&& (decimal_cell_spec(*value) is None
                        ==> (r matches Err(e) && e is ParseError))
            },
    {
        if cell_is_absent(value) {
            return Ok(None);
        }
        match Decimal::from_tushare_value(value) {
            Ok(d) => Ok(Some(d)),
            Err(e) => Err(e),
        }
    }
}

// ---------------------------------------------------------------------------
// Arbitrary-precision decimals.
// ---------------------------------------------------------------------------

/// An arbitrary-precision decimal: the signed unscaled integer as decimal
/// text, and the power of ten it is divided by; the value is
/// `digits / 10^scale` (a negative scale multiplies instead).
#[derive(Debug, Clone, PartialEq, Eq, Hash)]
pub struct BigDecimal {
    pub digits: String,
    pub scale: i64,
}

/// The arbitrary-precision decimal that the parser reads out of `s`, if
/// any, as (unscaled integer text, scale).
pub uninterp spec fn bigdecimal_of(s: Seq<char>) -> Option<(Seq<char>, int)>;

/// Relies on bigdecimal's `FromStr` for `BigDecimal`: whether the text
/// parses, and the resulting unscaled integer and scale, depend on the
/// text alone.
#[verifier::external_body]
fn parse_bigdecimal_text(s: &str) -> (r: Option<BigDecimal>)
    ensures
        r matches Some(d) ==> bigdecimal_of(s@) == Some((d.digits@, d.scale as int)),
        r is None ==> bigdecimal_of(s@) is None,
{
    match s.parse::<bigdecimal::BigDecimal>() {
        Ok(d) => {
            let (unscaled, scale) = d.as_bigint_and_exponent();
            Some(BigDecimal { digits: unscaled.to_string(), scale })
        },
        Err(_) => None,
    }
}

/// What a cell reads as at an arbitrary-precision decimal target: string
/// and number cells are both read as decimal text.
pub open spec fn bigdecimal_cell_spec(c: CellValue) -> Option<(Seq<char>, int)> {
    match c {
        CellValue::Text(s) => bigdecimal_of(s@),
        CellValue::Number(t) => bigdecimal_of(t@),
        _ => None,
    }
}

impl FromTushareValue for BigDecimal {
    fn from_tushare_value(value: &CellValue) -> (r: Result<Self, TushareError>)
        ensures
            bigdecimal_cell_spec(*value) matches Some(p)
                ==> (r matches Ok(d) && (d.digits@, d.scale as int) == p),
            bigdecimal_cell_spec(*value) is None ==> (r matches Err(e) && e is ParseError),
    {
        let parsed = match value {
            CellValue::Text(s) => parse_bigdecimal_text(s.as_str()),
            CellValue::Number(t) => parse_bigdecimal_text(t.as_str()),
            _ => None,
        };
        match parsed {
            Some(d) => Ok(d),
            None => Err(TushareError::ParseError(
                "Cannot convert cell to BigDecimal".to_owned(),
            )),
        }
    }
}

impl FromOptionalTushareValue for BigDecimal {
    fn from_optional_tushare_value(value: &CellValue) -> (r: Result<Option<Self>, TushareError>)
        ensures
            optional_absent(*value) ==> (r matches Ok(o) && o is None),
            !optional_absent(*value) ==> {
                &&& (bigdecimal_cell_spec(*value) matches Some(p)
                        ==> (r matches Ok(o) && o matches Some(d)
                            && (d.digits@, d.scale as int) == p))
                &&& (bigdecimal_cell_spec(*value) is None
                        ==> (r matches Err(e) && e is ParseError))
            },
    {
        if cell_is_absent(value) {
            return Ok(None);
        }
        match BigDecimal::from_tushare_value(value) {
            Ok(d) => Ok(Some(d)),
            Err(e) => Err(e),
        }
    }
}

} // verus!
