//! The row-to-entity mapper: a declarative per-field mapping (source column
//! name, required/optional, skip, custom format) applied to one response row.
//!
//! Columns are located by name, never by position; a missing optional column
//! reads as absent, a missing required column is a hard conversion error
//! naming the column.

use vstd::prelude::*;
use crate::cell::CellValue;
use crate::cell::int_cell_spec;
use crate::cell::string_cell_spec;
use crate::convert::FromTushareValue;
use crate::convert::bool_cell_spec;
use crate::convert::char_cell_code_spec;
use crate::convert::cell_is_absent;
use crate::convert::optional_absent;
use crate::convert::text_eq;
use crate::dates::Date;
use crate::dates::DateTime;
use crate::dates::FromTushareValueWithFormat;
use crate::dates::date_cell_spec;
use crate::dates::date_cell_with_format_spec;
use crate::dates::datetime_cell_spec;
use crate::dates::datetime_cell_with_format_spec;
use crate::decimal::Decimal;
use crate::decimal::decimal_cell_spec;
use crate::error::TushareError;
use crate::uid::Uuid;
use crate::uid::uuid_cell_spec;

verus! {

/// The target type of one entity field.
#[derive(Debug, Clone, Copy, PartialEq, Eq, Structural)]
pub enum FieldType {
    Str,
    I64,
    I32,
    I16,
    I8,
    Isize,
    U64,
    U32,
    U16,
    U8,
    Usize,
    Bool,
    Char,
    Date,
    DateTime,
    Decimal,
    Uuid,
}

/// One field of an entity: where it comes from and how it is read.
#[derive(Debug, Clone)]
pub struct FieldMapping {
    /// The target type of the field.
    pub target: FieldType,
    /// True for an `Option<T>` field: absent cells read as `None`.
    pub optional: bool,
    /// The source column name.
    pub source: String,
    /// A skipped field never consults the row and takes its default value.
    pub skip: bool,
    /// A custom parse format, tried exclusively; only date and timestamp
    /// targets support one.
    pub format: Option<String>,
}

impl FieldMapping {
    /// A format override is only meaningful on date and timestamp targets.
    pub open spec fn format_ok(self) -> bool {
        self.format is Some ==> (self.target is Date || self.target is DateTime)
    }

    /// A plain required field read from the column of the same name.
    pub fn required(target: FieldType, source: &str) -> (r: FieldMapping)
        ensures
            r.target == target,
            !r.optional,
            r.source@ == source@,
            !r.skip,
            r.format is None,
    {
        FieldMapping {
            target,
            optional: false,
            source: source.to_owned(),
            skip: false,
            format: None,
        }
    }

    /// A plain optional field read from the column of the same name.
    pub fn optional(target: FieldType, source: &str) -> (r: FieldMapping)
        ensures
            r.target == target,
            r.optional,
            r.source@ == source@,
            !r.skip,
            r.format is None,
    {
        FieldMapping {
            target,
            optional: true,
            source: source.to_owned(),
            skip: false,
            format: None,
        }
    }
}

/// One converted field value.
#[derive(Debug, Clone, PartialEq)]
pub enum FieldValue {
    /// An optional field whose cell was absent (or a skipped optional field).
    Absent,
    Str(String),
    I64(i64),
    I32(i32),
    I16(i16),
    I8(i8),
    Isize(isize),
    U64(u64),
    U32(u32),
    U16(u16),
    U8(u8),
    Usize(usize),
    Bool(bool),
    Char(char),
    Date(Date),
    DateTime(DateTime),
    Decimal(Decimal),
    Uuid(Uuid),
}

// ---------------------------------------------------------------------------
// Column lookup by name.
// ---------------------------------------------------------------------------

pub open spec fn column_index_from(columns: Seq<String>, name: Seq<char>, i: int) -> Option<int>
    decreases columns.len() - i,
{
    if i < 0 || i >= columns.len() {
        None
    } else if columns[i]@ == name {
        Some(i)
    } else {
        column_index_from(columns, name, i + 1)
    }
}

/// The first column with the given name, if any.
pub open spec fn column_index(columns: Seq<String>, name: Seq<char>) -> Option<int> {
    column_index_from(columns, name, 0)
}

/// Finds the first column with the given name.
pub fn find_column(columns: &[String], name: &str) -> (r: Option<usize>)
    ensures
        r matches Some(i) ==> column_index(columns@, name@) == Some(i as int),
        r is None ==> column_index(columns@, name@) is None,
{
    let n = columns.len();
    let mut i: usize = 0;
    while i < n
        invariant
            0 <= i <= n,
            n == columns@.len(),
            column_index(columns@, name@) == column_index_from(columns@, name@, i as int),
        decreases n - i,
    {
        if text_eq(columns[i].as_str(), name) {
            return Some(i);
        }
        i = i + 1;
    }
    None
}

// ---------------------------------------------------------------------------
// What one field reads as, in specification.
// ---------------------------------------------------------------------------

/// The date reading a mapping uses: its override format if it has one,
/// otherwise the default format list.
pub open spec fn date_read(m: FieldMapping, c: CellValue) -> Option<(i32, u8, u8)> {
    match m.format {
        Some(f) => date_cell_with_format_spec(c, f@),
        None => date_cell_spec(c),
    }
}

pub open spec fn datetime_read(m: FieldMapping, c: CellValue) -> Option<(i32, u8, u8, u8, u8, u8)> {
    match m.format {
        Some(f) => datetime_cell_with_format_spec(c, f@),
        None => datetime_cell_spec(c),
    }
}

/// Does reading this cell at this mapping's target fail?
pub open spec fn cell_read_fails(m: FieldMapping, c: CellValue) -> bool {
    if m.optional && optional_absent(c) {
        false
    } else {
        match m.target {
            FieldType::Str => false,
            FieldType::I64 => !(int_cell_spec(c) matches Some(v) && i64::MIN <= v <= i64::MAX),
            FieldType::I32 => !(int_cell_spec(c) matches Some(v) && i32::MIN <= v <= i32::MAX),
            FieldType::I16 => !(int_cell_spec(c) matches Some(v) && i16::MIN <= v <= i16::MAX),
            FieldType::I8 => !(int_cell_spec(c) matches Some(v) && i8::MIN <= v <= i8::MAX),
            FieldType::Isize => !(int_cell_spec(c) matches Some(v)
                && isize::MIN <= v <= isize::MAX),
            FieldType::U64 => !(int_cell_spec(c) matches Some(v) && 0 <= v <= u64::MAX),
            FieldType::U32 => !(int_cell_spec(c) matches Some(v) && 0 <= v <= u32::MAX),
            FieldType::U16 => !(int_cell_spec(c) matches Some(v) && 0 <= v <= u16::MAX),
            FieldType::U8 => !(int_cell_spec(c) matches Some(v) && 0 <= v <= u8::MAX),
            FieldType::Usize => !(int_cell_spec(c) matches Some(v) && 0 <= v <= usize::MAX),
            FieldType::Bool => bool_cell_spec(c) is None,
            FieldType::Char => char_cell_code_spec(c) is None,
            FieldType::Date => date_read(m, c) is None,
            FieldType::DateTime => datetime_read(m, c) is None,
            FieldType::Decimal => decimal_cell_spec(c) is None,
            FieldType::Uuid => uuid_cell_spec(c) is None,
        }
    }
}

/// Does `out` hold exactly what this cell reads as at this mapping's target?
pub open spec fn cell_reads(m: FieldMapping, c: CellValue, out: FieldValue) -> bool {
    match m.target {
        FieldType::Str => out matches FieldValue::Str(s) && s@ == string_cell_spec(c),
        FieldType::I64 => out matches FieldValue::I64(x) && int_cell_spec(c) == Some(x as int),
        FieldType::I32 => out matches FieldValue::I32(x) && int_cell_spec(c) == Some(x as int),
        FieldType::I16 => out matches FieldValue::I16(x) && int_cell_spec(c) == Some(x as int),
        FieldType::I8 => out matches FieldValue::I8(x) && int_cell_spec(c) == Some(x as int),
        FieldType::Isize => out matches FieldValue::Isize(x) && int_cell_spec(c) == Some(
            x as int,
        ),
        FieldType::U64 => out matches FieldValue::U64(x) && int_cell_spec(c) == Some(x as int),
        FieldType::U32 => out matches FieldValue::U32(x) && int_cell_spec(c) == Some(x as int),
        FieldType::U16 => out matches FieldValue::U16(x) && int_cell_spec(c) == Some(x as int),
        FieldType::U8 => out matches FieldValue::U8(x) && int_cell_spec(c) == Some(x as int),
        FieldType::Usize => out matches FieldValue::Usize(x) && int_cell_spec(c) == Some(
            x as int,
        ),
        FieldType::Bool => out matches FieldValue::Bool(b) && bool_cell_spec(c) == Some(b),
        FieldType::Char => out matches FieldValue::Char(ch) && char_cell_code_spec(c) == Some(
            ch as int,
        ),
        FieldType::Date => out matches FieldValue::Date(d) && date_read(m, c) == Some(
            (d.year, d.month, d.day),
        ) && d.wf(),
        FieldType::DateTime => out matches FieldValue::DateTime(d) && datetime_read(m, c)
            == Some((d.year, d.month, d.day, d.hour, d.minute, d.second)) && d.wf(),
        FieldType::Decimal => out matches FieldValue::Decimal(d) && decimal_cell_spec(c)
            == Some((d.mantissa as int, d.scale as int)) && d.wf(),
        FieldType::Uuid => out matches FieldValue::Uuid(u) && uuid_cell_spec(c) == Some(
            u.value as int,
        ),
    }
}

/// The default value a skipped field takes.
pub open spec fn default_matches(m: FieldMapping, out: FieldValue) -> bool {
    if m.optional {
        out is Absent
    } else {
        match m.target {
            FieldType::Str => out matches FieldValue::Str(s) && s@ == Seq::<char>::empty(),
            FieldType::I64 => out matches FieldValue::I64(x) && x == 0,
            FieldType::I32 => out matches FieldValue::I32(x) && x == 0,
            FieldType::I16 => out matches FieldValue::I16(x) && x == 0,
            FieldType::I8 => out matches FieldValue::I8(x) && x == 0,
            FieldType::Isize => out matches FieldValue::Isize(x) && x == 0,
            FieldType::U64 => out matches FieldValue::U64(x) && x == 0,
            FieldType::U32 => out matches FieldValue::U32(x) && x == 0,
            FieldType::U16 => out matches FieldValue::U16(x) && x == 0,
            FieldType::U8 => out matches FieldValue::U8(x) && x == 0,
            FieldType::Usize => out matches FieldValue::Usize(x) && x == 0,
            FieldType::Bool => out matches FieldValue::Bool(b) && !b,
            FieldType::Char => out matches FieldValue::Char(c) && c == '\0',
            FieldType::Date => out matches FieldValue::Date(d) && d == (Date {
                year: 1970,
                month: 1,
                day: 1,
            }),
            FieldType::DateTime => out matches FieldValue::DateTime(d) && d == (DateTime {
                year: 1970,
                month: 1,
                day: 1,
                hour: 0,
                minute: 0,
                second: 0,
            }),
            FieldType::Decimal => out matches FieldValue::Decimal(d) && d == (Decimal {
                mantissa: 0,
                scale: 0,
            }),
            FieldType::Uuid => out matches FieldValue::Uuid(u) && u == (Uuid { value: 0 }),
        }
    }
}

/// Does converting this field of this row fail?
pub open spec fn field_fails(columns: Seq<String>, row: Seq<CellValue>, m: FieldMapping) -> bool {
    if m.skip {
        false
    } else {
        match column_index(columns, m.source@) {
            None => !m.optional,
            Some(i) => if i >= row.len() {
                true
            } else {
                cell_read_fails(m, row[i])
            },
        }
    }
}

/// Does `out` hold what this field of this row converts to?
pub open spec fn field_ok(
    columns: Seq<String>,
    row: Seq<CellValue>,
    m: FieldMapping,
    out: FieldValue,
) -> bool {
    if m.skip {
        default_matches(m, out)
    } else {
        match column_index(columns, m.source@) {
            None => m.optional && out is Absent,
            Some(i) => if i >= row.len() {
                false
            } else if m.optional && optional_absent(row[i]) {
                out is Absent
            } else {
                cell_reads(m, row[i], out)
            },
        }
    }
}

/// The error message for a missing required column: it names the column.
pub open spec fn missing_field_message(name: Seq<char>) -> Seq<char> {
    "Missing field: "@ + name
}

/// Law: whatever the target type, a null cell fails every required
/// non-string field and is simply absent for every optional field.
pub proof fn lemma_null_cell_mapping(m: FieldMapping, c: CellValue)
    requires
        c is Null,
    ensures
        m.optional ==> !cell_read_fails(m, c),
        !m.optional && !(m.target is Str) ==> cell_read_fails(m, c),
{
}

/// Law: whatever the target type, an empty-string cell is absent for every
/// optional field — so a `None` encoded as the empty string reads back as
/// `None` through the mapper too.
pub proof fn lemma_empty_text_mapping(m: FieldMapping, c: CellValue)
    requires
        crate::cell::is_empty_text(c),
        m.optional,
    ensures
        !cell_read_fails(m, c),
{
}

// ---------------------------------------------------------------------------
// Executable conversion.
// ---------------------------------------------------------------------------

fn default_field_value(m: &FieldMapping) -> (out: FieldValue)
    ensures
        default_matches(*m, out),
{
    if m.optional {
        return FieldValue::Absent;
    }
    match m.target {
        FieldType::Str => FieldValue::Str(String::new()),
        FieldType::I64 => FieldValue::I64(0),
        FieldType::I32 => FieldValue::I32(0),
        FieldType::I16 => FieldValue::I16(0),
        FieldType::I8 => FieldValue::I8(0),
        FieldType::Isize => FieldValue::Isize(0),
        FieldType::U64 => FieldValue::U64(0),
        FieldType::U32 => FieldValue::U32(0),
        FieldType::U16 => FieldValue::U16(0),
        FieldType::U8 => FieldValue::U8(0),
        FieldType::Usize => FieldValue::Usize(0),
        FieldType::Bool => FieldValue::Bool(false),
        FieldType::Char => FieldValue::Char('\0'),
        FieldType::Date => FieldValue::Date(Date { year: 1970, month: 1, day: 1 }),
        FieldType::DateTime => FieldValue::DateTime(
            DateTime { year: 1970, month: 1, day: 1, hour: 0, minute: 0, second: 0 },
        ),
        FieldType::Decimal => FieldValue::Decimal(Decimal { mantissa: 0, scale: 0 }),
        FieldType::Uuid => FieldValue::Uuid(Uuid { value: 0 }),
    }
}

/// Converts one field of one row.
fn map_field(columns: &[String], row: &[CellValue], m: &FieldMapping) -> (r: Result<
    FieldValue,
    TushareError,
>)
    ensures
        (r is Err) == field_fails(columns@, row@, *m),
        r matches Ok(out) ==> field_ok(columns@, row@, *m, out),
        r matches Err(e) ==> e is ParseError,
        (field_fails(columns@, row@, *m) && column_index(columns@, m.source@) is None)
            ==> (r matches Err(e) && e matches TushareError::ParseError(msg)
                && msg@ == missing_field_message(m.source@)),
{
    if m.skip {
        return Ok(default_field_value(m));
    }
    let idx = match find_column(columns, m.source.as_str()) {
        Some(i) => i,
        None => {
            if m.optional {
                return Ok(FieldValue::Absent);
            }
            let mut msg = "Missing field: ".to_owned();
            msg.append(m.source.as_str());
            return Err(TushareError::ParseError(msg));
        },
    };
    if idx >= row.len() {
        let mut msg = "Value not found for field: ".to_owned();
        msg.append(m.source.as_str());
        return Err(TushareError::ParseError(msg));
    }
    let cell = &row[idx];
    if m.optional && cell_is_absent(cell) {
        return Ok(FieldValue::Absent);
    }
    match m.target {
        FieldType::Str => match String::from_tushare_value(cell) {
            Ok(s) => Ok(FieldValue::Str(s)),
            Err(e) => Err(e),
        },
        FieldType::I64 => match i64::from_tushare_value(cell) {
            Ok(x) => Ok(FieldValue::I64(x)),
            Err(e) => Err(e),
        },
        FieldType::I32 => match i32::from_tushare_value(cell) {
            Ok(x) => Ok(FieldValue::I32(x)),
            Err(e) => Err(e),
        },
        FieldType::I16 => match i16::from_tushare_value(cell) {
            Ok(x) => Ok(FieldValue::I16(x)),
            Err(e) => Err(e),
        },
        FieldType::I8 => match i8::from_tushare_value(cell) {
            Ok(x) => Ok(FieldValue::I8(x)),
            Err(e) => Err(e),
        },
        FieldType::Isize => match isize::from_tushare_value(cell) {
            Ok(x) => Ok(FieldValue::Isize(x)),
            Err(e) => Err(e),
        },
        FieldType::U64 => match u64::from_tushare_value(cell) {
            Ok(x) => Ok(FieldValue::U64(x)),
            Err(e) => Err(e),
        },
        FieldType::U32 => match u32::from_tushare_value(cell) {
            Ok(x) => Ok(FieldValue::U32(x)),
            Err(e) => Err(e),
        },
        FieldType::U16 => match u16::from_tushare_value(cell) {
            Ok(x) => Ok(FieldValue::U16(x)),
            Err(e) => Err(e),
        },
        FieldType::U8 => match u8::from_tushare_value(cell) {
            Ok(x) => Ok(FieldValue::U8(x)),
            Err(e) => Err(e),
        },
        FieldType::Usize => match usize::from_tushare_value(cell) {
            Ok(x) => Ok(FieldValue::Usize(x)),
            Err(e) => Err(e),
        },
        FieldType::Bool => match bool::from_tushare_value(cell) {
            Ok(b) => Ok(FieldValue::Bool(b)),
            Err(e) => Err(e),
        },
        FieldType::Char => match char::from_tushare_value(cell) {
            Ok(c) => Ok(FieldValue::Char(c)),
            Err(e) => Err(e),
        },
        FieldType::Date => {
            let res = match &m.format {
                Some(f) => Date::from_tushare_value_with_format(cell, f.as_str()),
                None => Date::from_tushare_value(cell),
            };
            match res {
                Ok(d) => Ok(FieldValue::Date(d)),
                Err(e) => Err(e),
            }
        },
        FieldType::DateTime => {
            let res = match &m.format {
                Some(f) => DateTime::from_tushare_value_with_format(cell, f.as_str()),
                None => DateTime::from_tushare_value(cell),
            };
            match res {
                Ok(d) => Ok(FieldValue::DateTime(d)),
                Err(e) => Err(e),
            }
        },
        FieldType::Decimal => match Decimal::from_tushare_value(cell) {
            Ok(d) => Ok(FieldValue::Decimal(d)),
            Err(e) => Err(e),
        },
        FieldType::Uuid => match Uuid::from_tushare_value(cell) {
            Ok(u) => Ok(FieldValue::Uuid(u)),
            Err(e) => Err(e),
        },
    }
}

/// The position of the first field whose conversion fails, or the number of
/// mappings when every field converts.
pub open spec fn first_fail_index(
    columns: Seq<String>,
    row: Seq<CellValue>,
    ms: Seq<FieldMapping>,
    i: int,
) -> int
    decreases ms.len() - i,
{
    if i < 0 || i >= ms.len() {
        ms.len() as int
    } else if field_fails(columns, row, ms[i]) {
        i
    } else {
        first_fail_index(columns, row, ms, i + 1)
    }
}

/// Converts one response row, field mapping by field mapping, stopping at
/// the first failing field.
pub fn map_row(columns: &[String], row: &[CellValue], mappings: &[FieldMapping]) -> (r: Result<
    Vec<FieldValue>,
    TushareError,
>)
    ensures
        (r is Err) == (first_fail_index(columns@, row@, mappings@, 0) < mappings@.len()),
        r matches Ok(vals) ==> {
            &&& vals@.len() == mappings@.len()
            &&& forall|k: int|
                0 <= k < mappings@.len() ==> field_ok(
                    columns@,
                    row@,
                    mappings@[k],
                    #[trigger] vals@[k],
                )
        },
        r matches Err(e) ==> ({
            let k = first_fail_index(columns@, row@, mappings@, 0);
            &&& 0 <= k < mappings@.len()
            &&& field_fails(columns@, row@, mappings@[k])
            &&& forall|j: int|
                0 <= j < k ==> !field_fails(columns@, row@, #[trigger] mappings@[j])
            &&& e is ParseError
            &&& (column_index(columns@, mappings@[k].source@) is None
                ==> (e matches TushareError::ParseError(msg)
                    && msg@ == missing_field_message(mappings@[k].source@)))
        }),
{
    let n = mappings.len();
    let mut vals: Vec<FieldValue> = Vec::new();
    let mut i: usize = 0;
    while i < n
        invariant
            0 <= i <= n,
            n == mappings@.len(),
            vals@.len() == i,
            forall|k: int|
                0 <= k < i ==> field_ok(columns@, row@, mappings@[k], #[trigger] vals@[k]),
            forall|j: int| 0 <= j < i ==> !field_fails(columns@, row@, #[trigger] mappings@[j]),
            first_fail_index(columns@, row@, mappings@, 0) == first_fail_index(
                columns@,
                row@,
                mappings@,
                i as int,
            ),
        decreases n - i,
    {
        match map_field(columns, row, &mappings[i]) {
            Ok(out) => {
                vals.push(out);
            },
            Err(e) => {
                proof {
                    assert(first_fail_index(columns@, row@, mappings@, i as int) == i as int);
                }
                return Err(e);
            },
        }
        i = i + 1;
    }
    Ok(vals)
}

/// A caller-defined record type produced from one response row.
///
/// Implementations usually locate each field's column with [`find_column`]
/// or convert the whole row with [`map_row`] over the record's mappings.
pub trait FromTushareData: Sized {
    fn from_row(fields: &[String], values: &[CellValue]) -> Result<Self, TushareError>;
}

/// The per-field mappings of one entity type, validated once at setup: a
/// format override on a target that is not a date or a timestamp is a
/// configuration error here, never at row-conversion time.
#[derive(Debug, Clone)]
pub struct EntityDescriptor {
    mappings: Vec<FieldMapping>,
}

impl EntityDescriptor {
    pub closed spec fn mappings_spec(self) -> Seq<FieldMapping> {
        self.mappings@
    }

    /// Validates the mappings: every format override sits on a date or
    /// timestamp target.
    pub fn new(mappings: Vec<FieldMapping>) -> (r: Result<Self, TushareError>)
        ensures
            (r is Ok) == (forall|i: int|
                0 <= i < mappings@.len() ==> (#[trigger] mappings@[i]).format_ok()),
            r matches Ok(d) ==> d.mappings_spec() == mappings@,
            r matches Err(e) ==> e is Other,
    {
        let n = mappings.len();
        let mut i: usize = 0;
        while i < n
            invariant
                0 <= i <= n,
                n == mappings@.len(),
                forall|j: int| 0 <= j < i ==> (#[trigger] mappings@[j]).format_ok(),
            decreases n - i,
        {
            let m = &mappings[i];
            if m.format.is_some() && !(matches!(m.target, FieldType::Date | FieldType::DateTime)) {
                let mut msg = "Format override on a field that is not a date: ".to_owned();
                msg.append(m.source.as_str());
                return Err(TushareError::Other(msg));
            }
            i = i + 1;
        }
        Ok(EntityDescriptor { mappings })
    }

    /// Converts one row under these mappings.
    pub fn map_row(&self, columns: &[String], row: &[CellValue]) -> (r: Result<
        Vec<FieldValue>,
        TushareError,
    >)
        ensures
            (r is Err) == (first_fail_index(columns@, row@, self.mappings_spec(), 0)
                < self.mappings_spec().len()),
            r matches Ok(vals) ==> {
                &&& vals@.len() == self.mappings_spec().len()
                &&& forall|k: int|
                    0 <= k < self.mappings_spec().len() ==> field_ok(
                        columns@,
                        row@,
                        self.mappings_spec()[k],
                        #[trigger] vals@[k],
                    )
            },
    {
        map_row(columns, row, self.mappings.as_slice())
    }
}

} // verus!
