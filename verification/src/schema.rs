//! Column types and the schema that the viewer shows for a file.

use vstd::prelude::*;
use vstd::string::*;

verus! {

/// The type of a column as the data frame engine (polars) reports it, by
/// variant. Types that the viewer does not tell apart are `Other`.
#[derive(Clone, Copy, Debug, PartialEq, Eq)]
pub enum DataType {
    Boolean,
    UInt8,
    UInt16,
    UInt32,
    UInt64,
    Int8,
    Int16,
    Int32,
    Int64,
    Float32,
    Float64,
    Decimal,
    String,
    Binary,
    BinaryOffset,
    Date,
    Datetime,
    Duration,
    Time,
    Array,
    List,
    Null,
    Categorical,
    Enum,
    Struct,
    Other,
}

/// The name under which the front end knows a column type.
pub open spec fn dtype_label(d: DataType) -> Seq<char> {
    match d {
        DataType::Int8 | DataType::Int16 | DataType::Int32 | DataType::Int64 | DataType::UInt8
        | DataType::UInt16 | DataType::UInt32 | DataType::UInt64 => "integer"@,
        DataType::Float32 | DataType::Float64 => "float"@,
        DataType::Boolean => "boolean"@,
        DataType::Date => "date"@,
        DataType::Datetime => "datetime"@,
        DataType::Decimal => "decimal"@,
        DataType::Time => "time"@,
        DataType::Duration => "duration"@,
        DataType::Categorical | DataType::Enum => "categorical"@,
        DataType::Binary | DataType::BinaryOffset => "binary"@,
        DataType::List | DataType::Array => "list"@,
        DataType::Struct => "struct"@,
        _ => "string"@,
    }
}

/// Maps a column type to the simple name the front end uses to type a column.
pub fn dtype_to_str(dtype: &DataType) -> (r: &'static str)
    ensures
        r@ == dtype_label(*dtype),
{
    match dtype {
        DataType::Int8 | DataType::Int16 | DataType::Int32 | DataType::Int64 | DataType::UInt8
        | DataType::UInt16 | DataType::UInt32 | DataType::UInt64 => "integer",
        DataType::Float32 | DataType::Float64 => "float",
        DataType::Boolean => "boolean",
        DataType::Date => "date",
        DataType::Datetime => "datetime",
        DataType::Decimal => "decimal",
        DataType::Time => "time",
        DataType::Duration => "duration",
        DataType::Categorical | DataType::Enum => "categorical",
        DataType::Binary | DataType::BinaryOffset => "binary",
        DataType::List | DataType::Array => "list",
        DataType::Struct => "struct",
        _ => "string",
    }
}

/// One entry of a file's schema as the engine reports it.
#[derive(Clone, Debug, PartialEq)]
pub struct Field {
    pub name: String,
    pub dtype: DataType,
}

/// A column as the front end sees it: its name and the name of its type.
#[derive(Clone, Debug, PartialEq)]
pub struct ColumnInfo {
    pub name: String,
    pub dtype: String,
}

pub struct ColumnInfoView {
    pub name: Seq<char>,
    pub dtype: Seq<char>,
}

impl View for ColumnInfo {
    type V = ColumnInfoView;

    open spec fn view(&self) -> ColumnInfoView {
        ColumnInfoView { name: self.name@, dtype: self.dtype@ }
    }
}

pub open spec fn column_info_of(f: Field) -> ColumnInfoView {
    ColumnInfoView { name: f.name@, dtype: dtype_label(f.dtype) }
}

/// The columns of a schema by their views.
pub open spec fn columns_view(cols: Seq<ColumnInfo>) -> Seq<ColumnInfoView> {
    cols.map_values(|c: ColumnInfo| c@)
}

/// The column metadata of a file, in the order of its schema.
pub fn extract_schema(fields: &[Field]) -> (r: Vec<ColumnInfo>)
    ensures
        columns_view(r@) == fields@.map_values(|f: Field| column_info_of(f)),
{
    let mut r: Vec<ColumnInfo> = Vec::new();
    let mut i: usize = 0;
    while i < fields.len()
        invariant
            i <= fields@.len(),
            r@.len() == i,
            forall|j: int| 0 <= j < i ==> #[trigger] r@[j]@ == column_info_of(fields@[j]),
        decreases fields@.len() - i,
    {
        let f = &fields[i];
        r.push(ColumnInfo { name: f.name.clone(), dtype: String::from_str(dtype_to_str(&f.dtype)) });
        i = i + 1;
    }
    assert(columns_view(r@) =~= fields@.map_values(|f: Field| column_info_of(f)));
    r
}

/// A copy of a list of columns.
pub fn copy_columns(cols: &[ColumnInfo]) -> (r: Vec<ColumnInfo>)
    ensures
        columns_view(r@) == columns_view(cols@),
{
    let mut r: Vec<ColumnInfo> = Vec::new();
    let mut i: usize = 0;
    while i < cols.len()
        invariant
            i <= cols@.len(),
            r@.len() == i,
            forall|j: int| 0 <= j < i ==> #[trigger] r@[j]@ == cols@[j]@,
        decreases cols@.len() - i,
    {
        r.push(ColumnInfo { name: cols[i].name.clone(), dtype: cols[i].dtype.clone() });
        i = i + 1;
    }
    assert(columns_view(r@) =~= columns_view(cols@));
    r
}

} // verus!
