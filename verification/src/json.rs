//! Table cells as JSON, for the rows that the front end shows.
//!
//! A [`CellValue`] is a cell as the engine returns it, told apart by variant;
//! a [`JsonValue`] is the JSON value sent for it. Floats are carried as their
//! IEEE-754 bit patterns: a finite float becomes a JSON number, NaN and the
//! infinities become `null`, as JSON has no number for them.

use vstd::prelude::*;
use vstd::string::*;

use crate::text::owned;

verus! {

/// A cell of a table.
#[derive(Debug, PartialEq)]
pub enum CellValue {
    Null,
    Boolean(bool),
    /// A signed integer of any width.
    Int(i64),
    /// An unsigned integer of any width.
    UInt(u64),
    /// A 32-bit float by its bit pattern.
    Float32Bits(u32),
    /// A 64-bit float by its bit pattern.
    Float64Bits(u64),
    Utf8(String),
    /// A decimal `value / 10^scale`.
    Decimal { value: i128, scale: usize },
    /// A binary blob, by its length in bytes.
    Binary(usize),
    /// A list or a fixed-size array of cells.
    List(Vec<CellValue>),
    /// A struct: its field names and its field values.
    Struct { names: Vec<String>, values: Vec<CellValue> },
    /// Any other value, by the text the engine displays for it.
    Other(String),
}

/// A JSON value.
#[derive(Debug, PartialEq)]
pub enum JsonValue {
    Null,
    Bool(bool),
    Int(i64),
    UInt(u64),
    /// A finite 32-bit float, by its bit pattern, written as a JSON number.
    Float32(u32),
    /// A finite 64-bit float, by its bit pattern.
    Float64(u64),
    /// The number `value / 10^scale`, computed in 64-bit floating point when
    /// the JSON is written; `null` if that is not finite.
    Decimal { value: i128, scale: usize },
    String(String),
    Array(Vec<JsonValue>),
    /// An object, by its entries in insertion order.
    Object(Vec<(String, JsonValue)>),
}

/// Whether a 64-bit float is finite: its exponent is not all ones.
pub open spec fn f64_bits_finite(bits: u64) -> bool {
    (bits >> 52u64) & 0x7ffu64 != 0x7ffu64
}

/// Whether a 32-bit float is finite: its exponent is not all ones.
pub open spec fn f32_bits_finite(bits: u32) -> bool {
    (bits >> 23u32) & 0xffu32 != 0xffu32
}

pub open spec fn digit_char(d: int) -> char {
    if d == 0 { '0' }
    else if d == 1 { '1' }
    else if d == 2 { '2' }
    else if d == 3 { '3' }
    else if d == 4 { '4' }
    else if d == 5 { '5' }
    else if d == 6 { '6' }
    else if d == 7 { '7' }
    else if d == 8 { '8' }
    else { '9' }
}

/// The decimal digits of `n`, without leading zeros.
pub open spec fn decimal(n: nat) -> Seq<char>
    decreases n,
{
    if n < 10 {
        seq![digit_char(n as int)]
    } else {
        decimal(n / 10).push(digit_char((n % 10) as int))
    }
}

fn digit_str(d: usize) -> (r: &'static str)
    requires
        d < 10,
    ensures
        r@ == seq![digit_char(d as int)],
{
    proof {
        reveal_strlit("0");
        reveal_strlit("1");
        reveal_strlit("2");
        reveal_strlit("3");
        reveal_strlit("4");
        reveal_strlit("5");
        reveal_strlit("6");
        reveal_strlit("7");
        reveal_strlit("8");
        reveal_strlit("9");
    }
    match d {
        0 => "0",
        1 => "1",
        2 => "2",
        3 => "3",
        4 => "4",
        5 => "5",
        6 => "6",
        7 => "7",
        8 => "8",
        _ => "9",
    }
}

/// `n` written in decimal.
pub fn decimal_string(n: usize) -> (r: String)
    ensures
        r@ == decimal(n as nat),
    decreases n,
{
    if n < 10 {
        owned(digit_str(n))
    } else {
        let mut s = decimal_string(n / 10);
        s.append(digit_str(n % 10));
        s
    }
}

/// The text that stands for a binary blob of `len` bytes.
pub open spec fn binary_descriptor(len: nat) -> Seq<char> {
    "<"@ + decimal(len) + " bytes>"@
}

/// Whether `j` is the JSON value for the cell `c`.
pub open spec fn json_of(c: CellValue, j: JsonValue) -> bool
    decreases c,
{
    match c {
        CellValue::Null => j == JsonValue::Null,
        CellValue::Boolean(b) => j == JsonValue::Bool(b),
        CellValue::Int(n) => j == JsonValue::Int(n),
        CellValue::UInt(n) => j == JsonValue::UInt(n),
        CellValue::Float32Bits(b) => j == (if f32_bits_finite(b) { JsonValue::Float32(b) } else { JsonValue::Null }),
        CellValue::Float64Bits(b) => j == (if f64_bits_finite(b) { JsonValue::Float64(b) } else { JsonValue::Null }),
        CellValue::Utf8(s) => j matches JsonValue::String(t) && t@ == s@,
        CellValue::Decimal { value, scale } => j == JsonValue::Decimal { value, scale },
        CellValue::Binary(len) => j matches JsonValue::String(t) && t@ == binary_descriptor(len as nat),
        CellValue::List(items) => j matches JsonValue::Array(js) && js@.len() == items@.len()
            && forall|i: int| 0 <= i < items@.len() ==> json_of(#[trigger] items@[i], js@[i]),
        CellValue::Struct { names, values } => j matches JsonValue::Object(es)
            && es@.len() == (if names@.len() <= values@.len() { names@.len() } else { values@.len() })
            && forall|i: int| 0 <= i < es@.len() ==> (#[trigger] es@[i]).0@ == names@[i]@
                && json_of(values@[i], es@[i].1),
        CellValue::Other(s) => j matches JsonValue::String(t) && t@ == s@,
    }
}

/// The JSON value for one cell. Nested lists become arrays and structs become
/// objects that keep their field names; a binary blob is described by its
/// length; a float that is not finite becomes `null`.
pub fn cell_to_json(v: &CellValue) -> (r: JsonValue)
    ensures
        json_of(*v, r),
    decreases v,
{
    match v {
        CellValue::Null => JsonValue::Null,
        CellValue::Boolean(b) => JsonValue::Bool(*b),
        CellValue::Int(n) => JsonValue::Int(*n),
        CellValue::UInt(n) => JsonValue::UInt(*n),
        CellValue::Float32Bits(b) => if (*b >> 23u32) & 0xffu32 != 0xffu32 {
            JsonValue::Float32(*b)
        } else {
            JsonValue::Null
        },
        CellValue::Float64Bits(b) => if (*b >> 52u64) & 0x7ffu64 != 0x7ffu64 {
            JsonValue::Float64(*b)
        } else {
            JsonValue::Null
        },
        CellValue::Utf8(s) => JsonValue::String(s.clone()),
        CellValue::Decimal { value, scale } => JsonValue::Decimal { value: *value, scale: *scale },
        CellValue::Binary(len) => {
            let mut s = owned("<");
            s.append(decimal_string(*len).as_str());
            s.append(" bytes>");
            JsonValue::String(s)
        },
        CellValue::List(items) => list_to_json(items),
        CellValue::Struct { names, values } => struct_to_json(names, values),
        CellValue::Other(s) => JsonValue::String(s.clone()),
    }
}

/// A JSON array of the JSON values of `items`, in order.
pub fn list_to_json(items: &Vec<CellValue>) -> (r: JsonValue)
    ensures
        r matches JsonValue::Array(js) && js@.len() == items@.len()
            && forall|i: int| 0 <= i < items@.len() ==> json_of(#[trigger] items@[i], js@[i]),
    decreases items,
{
    let mut js: Vec<JsonValue> = Vec::new();
    let mut i: usize = 0;
    while i < items.len()
        invariant
            i <= items@.len(),
            js@.len() == i,
            forall|k: int| 0 <= k < i ==> json_of(#[trigger] items@[k], js@[k]),
        decreases items@.len() - i,
    {
        let j = cell_to_json(&items[i]);
        js.push(j);
        i = i + 1;
    }
    JsonValue::Array(js)
}

/// A JSON object whose entries pair the field names with the JSON values of
/// the field values, in order, as far as both lists go.
pub fn struct_to_json(names: &Vec<String>, values: &Vec<CellValue>) -> (r: JsonValue)
    ensures
        r matches JsonValue::Object(es)
            && es@.len() == (if names@.len() <= values@.len() { names@.len() } else { values@.len() })
            && forall|i: int| 0 <= i < es@.len() ==> (#[trigger] es@[i]).0@ == names@[i]@
                && json_of(values@[i], es@[i].1),
    decreases values,
{
    let n = if names.len() <= values.len() { names.len() } else { values.len() };
    let mut es: Vec<(String, JsonValue)> = Vec::new();
    let mut i: usize = 0;
    while i < n
        invariant
            n <= names@.len(),
            n <= values@.len(),
            n == (if names@.len() <= values@.len() { names@.len() } else { values@.len() }),
            i <= n,
            es@.len() == i,
            forall|k: int| 0 <= k < i ==> (#[trigger] es@[k]).0@ == names@[k]@
                && json_of(values@[k], es@[k].1),
        decreases n - i,
    {
        let j = cell_to_json(&values[i]);
        es.push((names[i].clone(), j));
        i = i + 1;
    }
    JsonValue::Object(es)
}

/// A named column of cells.
#[derive(Debug, PartialEq)]
pub struct Column {
    pub name: String,
    pub values: Vec<CellValue>,
}

/// A table of `height` rows, by its columns.
#[derive(Debug, PartialEq)]
pub struct DataFrame {
    pub columns: Vec<Column>,
    pub height: usize,
}

/// Whether `j` is the JSON object for row `i` of `df`: one entry per column,
/// named after it, holding the JSON value of the column's cell in that row, or
/// `null` where the column has no such cell.
pub open spec fn row_of(df: DataFrame, i: int, j: JsonValue) -> bool {
    j matches JsonValue::Object(es) && es@.len() == df.columns@.len()
        && forall|k: int| 0 <= k < es@.len() ==> {
            let c = #[trigger] df.columns@[k];
            &&& es@[k].0@ == c.name@
            &&& if i < c.values@.len() {
                json_of(c.values@[i], es@[k].1)
            } else {
                es@[k].1 == JsonValue::Null
            }
        }
}

fn row_to_json(df: &DataFrame, i: usize) -> (r: JsonValue)
    ensures
        row_of(*df, i as int, r),
{
    let mut es: Vec<(String, JsonValue)> = Vec::new();
    let mut k: usize = 0;
    while k < df.columns.len()
        invariant
            k <= df.columns@.len(),
            es@.len() == k,
            forall|m: int| 0 <= m < k ==> {
                let c = #[trigger] df.columns@[m];
                &&& es@[m].0@ == c.name@
                &&& if i < c.values@.len() {
                    json_of(c.values@[i as int], es@[m].1)
                } else {
                    es@[m].1 == JsonValue::Null
                }
            },
        decreases df.columns@.len() - k,
    {
        let c = &df.columns[k];
        let v = if i < c.values.len() { cell_to_json(&c.values[i]) } else { JsonValue::Null };
        es.push((c.name.clone(), v));
        k = k + 1;
    }
    JsonValue::Object(es)
}

/// The rows of a (small, paginated) table as JSON objects, one per row, each
/// with one entry per column.
pub fn frame_to_rows(df: &DataFrame) -> (r: Vec<JsonValue>)
    ensures
        r@.len() == df.height,
        forall|i: int| 0 <= i < df.height ==> row_of(*df, i, #[trigger] r@[i]),
{
    let mut rows: Vec<JsonValue> = Vec::new();
    let mut i: usize = 0;
    while i < df.height
        invariant
            i <= df.height,
            rows@.len() == i,
            forall|m: int| 0 <= m < i ==> row_of(*df, m, #[trigger] rows@[m]),
        decreases df.height - i,
    {
        rows.push(row_to_json(df, i));
        i = i + 1;
    }
    rows
}

} // verus!
