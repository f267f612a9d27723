//! Properties that hold across the functions of the library.

use vstd::prelude::*;

use crate::calendar::{chrono_date, chrono_datetime};
use crate::expr::{
    BinaryOp, ExprView, LiteralView, StringOp, UnaryOp, binary_v, col_v, lit_v, string_match_v,
    unary_v,
};
use crate::json::{CellValue, JsonValue, json_of};
use crate::filter::{
    FilterSpecView, combined_filter_spec, column_dtype, date_format, datetime_format, date_value_spec, datetime_value_spec,
    filter_expr_spec, integer_value_spec, parse_i64_spec, value_spec,
};
use crate::query::{
    LazyQueryView, QueryOpView, apply_filters_spec, chart_columns, pipeline_spec, scan_spec, select_spec,
    write_format_spec,
};
use crate::schema::{ColumnInfoView, DataType, dtype_label};
use crate::state::{
    AppStateView, LoadedFileView, after_load, all_bounds, loaded_spec, map_points_spec, page_len,
};
use crate::text::file_ext_spec;

verus! {

/// Filtering with no filters leaves a query as it was.
pub proof fn law_no_filters_keep_query(q: LazyQueryView, schema: Seq<ColumnInfoView>)
    ensures
        apply_filters_spec(q, Seq::<FilterSpecView>::empty(), schema) == Ok::<LazyQueryView, Seq<char>>(q),
{
}

/// Projecting to no columns leaves a query as it was.
pub proof fn law_no_columns_keep_query(q: LazyQueryView)
    ensures
        select_spec(q, Seq::<Seq<char>>::empty()) == q,
{
}

/// One filter adds exactly its own predicate; each further filter is joined to
/// the ones before it with AND.
pub proof fn law_filters_join_with_and(fs: Seq<FilterSpecView>, f: FilterSpecView, schema: Seq<ColumnInfoView>)
    ensures
        ({
            let before = combined_filter_spec(fs, schema);
            let after = combined_filter_spec(fs.push(f), schema);
            match before {
                Err(e) => after == Err::<Option<crate::expr::ExprView>, Seq<char>>(e),
                Ok(prev) => match column_dtype(schema, f.column) {
                    None => after == Err::<Option<crate::expr::ExprView>, Seq<char>>("Unknown column: "@ + f.column),
                    Some(t) => match filter_expr_spec(f, t) {
                        Err(e) => after == Err::<Option<crate::expr::ExprView>, Seq<char>>(e),
                        Ok(x) => after == Ok::<Option<crate::expr::ExprView>, Seq<char>>(Some(match prev {
                            None => x,
                            Some(p) => crate::expr::binary_v(crate::expr::BinaryOp::And, p, x),
                        })),
                    },
                },
            }
        }),
{
    assert(fs.push(f).drop_last() =~= fs);
}

/// The steps of the shared pipeline come in a fixed order after the scan: at
/// most one filter, then the sort if one is asked for, then the projection if
/// columns are given; the projection is always last.
pub proof fn law_pipeline_order(
    path: Seq<char>,
    fs: Seq<FilterSpecView>,
    schema: Seq<ColumnInfoView>,
    sort_col: Option<Seq<char>>,
    descending: bool,
    columns: Seq<Seq<char>>,
)
    ensures
        pipeline_spec(path, fs, schema, sort_col, descending, columns) matches Ok(q) ==> {
            let filter_steps: Seq<QueryOpView> = match combined_filter_spec(fs, schema) {
                Ok(Some(x)) => seq![QueryOpView::Filter(x)],
                _ => Seq::empty(),
            };
            let sort_steps: Seq<QueryOpView> = match sort_col {
                Some(c) => seq![QueryOpView::Sort(c, descending)],
                None => Seq::empty(),
            };
            let select_steps: Seq<QueryOpView> = if columns.len() == 0 {
                Seq::empty()
            } else {
                seq![QueryOpView::Select(columns)]
            };
            &&& q.path == path
            &&& q.ops =~= filter_steps + sort_steps + select_steps
        },
{
}

/// A file the viewer writes to a path it can read is written in the format in
/// which it is read back.
pub proof fn law_written_file_reads_back(path: Seq<char>)
    ensures
        scan_spec(path) matches Ok(q) ==> q.format == write_format_spec(file_ext_spec(path)),
{
}

/// After a file is loaded, every command sees that file, with the path, row
/// count and schema it was loaded with.
pub proof fn law_loaded_file_is_seen(s: AppStateView, path: Seq<char>, total_rows: usize, columns: Seq<ColumnInfoView>)
    ensures
        loaded_spec(after_load(s, path, total_rows, columns)) == Ok::<LoadedFileView, Seq<char>>(
            LoadedFileView { path, total_rows, schema: columns },
        ),
{
}

/// A filter value is read according to the type of its column: as an integer
/// on integer columns, as a float on float and decimal columns, as a date or a
/// datetime on those, and as a string on every other column.
pub proof fn law_value_read_by_column_type(v: Seq<char>, t: DataType)
    ensures
        value_spec(v, dtype_label(t)) == match t {
            DataType::Int8 | DataType::Int16 | DataType::Int32 | DataType::Int64 | DataType::UInt8
            | DataType::UInt16 | DataType::UInt32 | DataType::UInt64 => integer_value_spec(v, parse_i64_spec(v)),
            DataType::Float32 | DataType::Float64 => Ok(lit_v(LiteralView::FloatText(v, "float"@))),
            DataType::Decimal => Ok(lit_v(LiteralView::FloatText(v, "decimal"@))),
            DataType::Date => date_value_spec(v, chrono_date(v, date_format())),
            DataType::Datetime => datetime_value_spec(v, chrono_datetime(v, datetime_format())),
            _ => Ok(lit_v(LiteralView::Utf8(v))),
        },
{
    reveal_strlit("integer");
    reveal_strlit("float");
    reveal_strlit("decimal");
    reveal_strlit("date");
    reveal_strlit("datetime");
    reveal_strlit("boolean");
    reveal_strlit("time");
    reveal_strlit("duration");
    reveal_strlit("categorical");
    reveal_strlit("binary");
    reveal_strlit("list");
    reveal_strlit("struct");
    reveal_strlit("string");
    assert("integer"@[0] == 'i' && "decimal"@[0] == 'd' && "boolean"@[0] == 'b');
    assert("date"@[0] == 'd' && "time"@[0] == 't' && "list"@[0] == 'l');
    assert("datetime"@[1] == 'a' && "duration"@[1] == 'u');
    assert("integer"@ != "decimal"@ && "integer"@ != "boolean"@ && "decimal"@ != "boolean"@);
    assert("date"@ != "time"@ && "date"@ != "list"@);
    assert("datetime"@ != "duration"@);
    assert("datetime"@.len() == 8 && "date"@.len() == 4 && "integer"@.len() == 7);
    assert("float"@.len() == 5 && "decimal"@.len() == 7);
    assert("datetime"@ != "integer"@ && "datetime"@ != "float"@ && "datetime"@ != "decimal"@);
    assert("datetime"@ != "date"@);
    assert("date"@ != "integer"@ && "date"@ != "float"@ && "date"@ != "decimal"@);
}

/// A path without an extension is refused, with the message naming an empty
/// extension.
pub proof fn law_no_extension_is_refused(path: Seq<char>)
    requires
        crate::text::path_extension(path) is None,
    ensures
        scan_spec(path) == Err::<LazyQueryView, Seq<char>>("Unsupported file format: ."@),
{
    reveal_strlit("parquet");
    reveal_strlit("csv");
    assert(file_ext_spec(path) =~= Seq::<char>::empty());
    assert("Unsupported file format: ."@ + Seq::<char>::empty() =~= "Unsupported file format: ."@);
}

/// A page never holds more rows than the limit asks for, and none for a limit
/// of zero or less.
pub proof fn law_page_at_most_limit(limit: i64)
    ensures
        page_len(limit) <= (if limit <= 0 { 0 } else { limit as int }),
        limit <= 0 ==> page_len(limit) == 0,
{
}

// ---------------------------------------------------------------------------
// Filters
// ---------------------------------------------------------------------------


/// What each filter operation means, on a column whose type is named `dtype`
/// and for values that read as `x` and `y` there: `is_null` / `is_not_null`
/// test for null, `is_true` / `is_false` compare with a boolean, `eq`, `neq`,
/// `gt`, `gte`, `lt`, `lte` compare with the value by `=`, `!=`, `>`, `>=`,
/// `<`, `<=`, `between` keeps the values from the first to the second with both
/// ends included, and the substring tests match the value's text, whatever the
/// column type.
pub proof fn law_filter_operations(f: FilterSpecView, dtype: Seq<char>, x: ExprView, y: ExprView)
    ensures
        ({
            let c = col_v(f.column);
            let with_value = f.value is Some && value_spec(f.value->0, dtype) == Ok::<ExprView, Seq<char>>(x);
            &&& f.op == "is_null"@ ==> filter_expr_spec(f, dtype) == Ok::<ExprView, Seq<char>>(unary_v(UnaryOp::IsNull, c))
            &&& f.op == "is_not_null"@ ==> filter_expr_spec(f, dtype) == Ok::<ExprView, Seq<char>>(unary_v(UnaryOp::IsNotNull, c))
            &&& f.op == "is_true"@ ==> filter_expr_spec(f, dtype) == Ok::<ExprView, Seq<char>>(
                binary_v(BinaryOp::Equal, c, lit_v(LiteralView::Boolean(true))))
            &&& f.op == "is_false"@ ==> filter_expr_spec(f, dtype) == Ok::<ExprView, Seq<char>>(
                binary_v(BinaryOp::Equal, c, lit_v(LiteralView::Boolean(false))))
            &&& f.op == "eq"@ && with_value ==> filter_expr_spec(f, dtype) == Ok::<ExprView, Seq<char>>(binary_v(BinaryOp::Equal, c, x))
            &&& f.op == "neq"@ && with_value ==> filter_expr_spec(f, dtype) == Ok::<ExprView, Seq<char>>(binary_v(BinaryOp::NotEqual, c, x))
            &&& f.op == "gt"@ && with_value ==> filter_expr_spec(f, dtype) == Ok::<ExprView, Seq<char>>(binary_v(BinaryOp::Greater, c, x))
            &&& f.op == "gte"@ && with_value ==> filter_expr_spec(f, dtype) == Ok::<ExprView, Seq<char>>(binary_v(BinaryOp::GreaterEqual, c, x))
            &&& f.op == "lt"@ && with_value ==> filter_expr_spec(f, dtype) == Ok::<ExprView, Seq<char>>(binary_v(BinaryOp::Less, c, x))
            &&& f.op == "lte"@ && with_value ==> filter_expr_spec(f, dtype) == Ok::<ExprView, Seq<char>>(binary_v(BinaryOp::LessEqual, c, x))
            &&& f.op == "between"@ && with_value && f.value2 is Some
                && value_spec(f.value2->0, dtype) == Ok::<ExprView, Seq<char>>(y)
                ==> filter_expr_spec(f, dtype) == Ok::<ExprView, Seq<char>>(binary_v(
                    BinaryOp::And,
                    binary_v(BinaryOp::GreaterEqual, c, x),
                    binary_v(BinaryOp::LessEqual, c, y),
                ))
            &&& f.op == "contains"@ && f.value is Some ==> filter_expr_spec(f, dtype)
                == Ok::<ExprView, Seq<char>>(string_match_v(StringOp::Contains, c, lit_v(LiteralView::Utf8(f.value->0))))
            &&& f.op == "not_contains"@ && f.value is Some ==> filter_expr_spec(f, dtype)
                == Ok::<ExprView, Seq<char>>(unary_v(UnaryOp::Not, string_match_v(StringOp::Contains, c, lit_v(LiteralView::Utf8(f.value->0)))))
            &&& f.op == "starts_with"@ && f.value is Some ==> filter_expr_spec(f, dtype)
                == Ok::<ExprView, Seq<char>>(string_match_v(StringOp::StartsWith, c, lit_v(LiteralView::Utf8(f.value->0))))
            &&& f.op == "ends_with"@ && f.value is Some ==> filter_expr_spec(f, dtype)
                == Ok::<ExprView, Seq<char>>(string_match_v(StringOp::EndsWith, c, lit_v(LiteralView::Utf8(f.value->0))))
        }),
{
    reveal_strlit("is_null");
    reveal_strlit("is_not_null");
    reveal_strlit("is_true");
    reveal_strlit("is_false");
    reveal_strlit("eq");
    reveal_strlit("neq");
    reveal_strlit("gt");
    reveal_strlit("gte");
    reveal_strlit("lt");
    reveal_strlit("lte");
    reveal_strlit("between");
    reveal_strlit("contains");
    reveal_strlit("not_contains");
    reveal_strlit("starts_with");
    reveal_strlit("ends_with");
    assert("is_null"@.len() == 7 && "is_not_null"@.len() == 11 && "is_true"@.len() == 7);
    assert("is_false"@.len() == 8 && "eq"@.len() == 2 && "neq"@.len() == 3 && "gt"@.len() == 2);
    assert("gte"@.len() == 3 && "lt"@.len() == 2 && "lte"@.len() == 3 && "between"@.len() == 7);
    assert("contains"@.len() == 8 && "not_contains"@.len() == 12 && "starts_with"@.len() == 11);
    assert("ends_with"@.len() == 9);
    assert("is_null"@[3] == 'n' && "is_true"@[3] == 't' && "between"@[0] == 'b');
    assert("is_not_null"@[0] == 'i' && "starts_with"@[0] == 's');
    assert("is_false"@[0] == 'i' && "contains"@[0] == 'c');
    assert("eq"@[0] == 'e' && "gt"@[0] == 'g' && "lt"@[0] == 'l');
    assert("neq"@[0] == 'n' && "gte"@[0] == 'g' && "lte"@[0] == 'l');
}

// ---------------------------------------------------------------------------
// Pages, maps and charts
// ---------------------------------------------------------------------------

/// A positive page limit is the page length, read as a `u32` as the engine
/// takes it: exactly the limit when it fits, its low 32 bits when it does not;
/// a limit of zero or less gives an empty page.
pub proof fn law_page_length_is_limit(limit: i64)
    ensures
        0 < limit <= u32::MAX ==> page_len(limit) == limit,
        limit > 0 ==> page_len(limit) as int == limit % 0x1_0000_0000,
        limit <= 0 ==> page_len(limit) == 0,
{
    if limit > 0 {
        let r = limit as u32;
        assert(r as int == limit % 0x1_0000_0000) by (bit_vector)
            requires
                limit > 0,
                r == limit as u32,
        ;
    }
}

/// The four optional bounds make a box only when all four are given, and then
/// in the order minimum latitude, maximum latitude, minimum longitude,
/// maximum longitude.
pub proof fn law_bounds_need_all_four(a: Option<u64>, b: Option<u64>, c: Option<u64>, d: Option<u64>)
    ensures
        all_bounds(a, b, c, d) is Some <==> (a is Some && b is Some && c is Some && d is Some),
        all_bounds(a, b, c, d) matches Some(t) ==> t == (a->0, b->0, c->0, d->0),
{
}

/// The map query runs the user's filters (the same single filter step that
/// `apply_filters` adds) whether or not a box is given; a box adds its own
/// filter after them, keeping latitude and longitude within the bounds, both
/// ends included; the two coordinate columns, latitude first, are selected
/// last.
pub proof fn law_map_query_keeps_user_filters(
    f: LoadedFileView,
    lat: Seq<char>,
    lon: Seq<char>,
    fs: Seq<FilterSpecView>,
    bounds: Option<(u64, u64, u64, u64)>,
)
    ensures
        ({
            let r = map_points_spec(f, lat, lon, fs, bounds);
            match scan_spec(f.path) {
                Err(e) => r == Err::<LazyQueryView, Seq<char>>(e),
                Ok(q0) => match combined_filter_spec(fs, f.schema) {
                    Err(e) => r == Err::<LazyQueryView, Seq<char>>(e),
                    Ok(user) => r matches Ok(q) && q.path == f.path && q.format == q0.format && q.ops =~= (match user {
                        Some(x) => seq![QueryOpView::Filter(x)],
                        None => Seq::<QueryOpView>::empty(),
                    }) + (match bounds {
                        Some(b) => seq![QueryOpView::Filter(binary_v(
                            BinaryOp::And,
                            binary_v(
                                BinaryOp::And,
                                binary_v(
                                    BinaryOp::And,
                                    binary_v(BinaryOp::GreaterEqual, col_v(lat), lit_v(LiteralView::Float64Bits(b.0))),
                                    binary_v(BinaryOp::LessEqual, col_v(lat), lit_v(LiteralView::Float64Bits(b.1))),
                                ),
                                binary_v(BinaryOp::GreaterEqual, col_v(lon), lit_v(LiteralView::Float64Bits(b.2))),
                            ),
                            binary_v(BinaryOp::LessEqual, col_v(lon), lit_v(LiteralView::Float64Bits(b.3))),
                        ))],
                        None => Seq::<QueryOpView>::empty(),
                    }) + seq![QueryOpView::Select(seq![lat, lon])],
                },
            }
        }),
{
}

/// A chart shows the x column and then every y column, in order.
pub proof fn law_chart_shows_every_series(x: Seq<char>, ys: Seq<Seq<char>>)
    ensures
        chart_columns(x, ys).len() == 1 + ys.len(),
        chart_columns(x, ys)[0] == x,
        forall|i: int| 0 <= i < ys.len() ==> #[trigger] chart_columns(x, ys)[i + 1] == ys[i],
{
}

/// The chart query sorts by the x column, ascending, and then selects the x
/// column followed by every y column.
pub proof fn law_chart_query_steps(
    path: Seq<char>,
    fs: Seq<FilterSpecView>,
    schema: Seq<ColumnInfoView>,
    x: Seq<char>,
    ys: Seq<Seq<char>>,
)
    ensures
        pipeline_spec(path, fs, schema, Some(x), false, chart_columns(x, ys)) matches Ok(q) ==> {
            &&& q.ops.len() >= 2
            &&& q.ops[q.ops.len() - 2] == QueryOpView::Sort(x, false)
            &&& q.ops[q.ops.len() - 1] matches QueryOpView::Select(cols)
            &&& cols.len() == 1 + ys.len()
            &&& cols[0] == x
            &&& forall|i: int| 0 <= i < ys.len() ==> #[trigger] cols[i + 1] == ys[i]
        },
{
}

// ---------------------------------------------------------------------------
// JSON
// ---------------------------------------------------------------------------

/// Scalar cells become the JSON value of the same kind and value: null to
/// null, a boolean `b` to the JSON boolean `b` (false included), an integer to
/// the same integer, a string to the same string.
pub proof fn law_scalar_cells(j: JsonValue, b: bool, n: i64, u: u64, s: String)
    ensures
        json_of(CellValue::Null, j) <==> j == JsonValue::Null,
        json_of(CellValue::Boolean(b), j) <==> j == JsonValue::Bool(b),
        json_of(CellValue::Int(n), j) <==> j == JsonValue::Int(n),
        json_of(CellValue::UInt(u), j) <==> j == JsonValue::UInt(u),
        json_of(CellValue::Utf8(s), j) <==> (j matches JsonValue::String(t) && t@ == s@),
{
}

} // verus!
