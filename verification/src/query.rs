//! Lazy query plans: a file scan followed by filter, sort and projection
//! steps, in the order in which the engine is to run them.

use vstd::prelude::*;
use vstd::string::*;

use crate::expr::{Expr, ExprView};
use crate::filter::{FilterSpec, combine_filters, combined_filter_spec, filters_view};
use crate::schema::{ColumnInfo, columns_view};
use crate::text::{copy_strings, file_ext, file_ext_spec, owned, str_eq, strings_view};

verus! {

/// The file formats the viewer reads and writes.
#[derive(Clone, Copy, Debug, PartialEq, Eq)]
pub enum FileFormat {
    Parquet,
    Csv,
}

/// One step of a query after the scan.
#[derive(Debug, PartialEq)]
pub enum QueryOp {
    /// Keep the rows for which the predicate holds.
    Filter(Expr),
    /// Order the rows by one column.
    Sort { column: String, descending: bool },
    /// Keep only these columns, in this order.
    Select(Vec<String>),
}

pub enum QueryOpView {
    Filter(ExprView),
    Sort(Seq<char>, bool),
    Select(Seq<Seq<char>>),
}

impl View for QueryOp {
    type V = QueryOpView;

    open spec fn view(&self) -> QueryOpView {
        match self {
            QueryOp::Filter(e) => QueryOpView::Filter(e@),
            QueryOp::Sort { column, descending } => QueryOpView::Sort(column@, *descending),
            QueryOp::Select(cols) => QueryOpView::Select(strings_view(cols@)),
        }
    }
}

/// A query that has not run yet: scan the file at `path` as `format`, then
/// apply `ops` in order.
#[derive(Debug, PartialEq)]
pub struct LazyQuery {
    pub path: String,
    pub format: FileFormat,
    pub ops: Vec<QueryOp>,
}

pub struct LazyQueryView {
    pub path: Seq<char>,
    pub format: FileFormat,
    pub ops: Seq<QueryOpView>,
}

pub open spec fn ops_view(ops: Seq<QueryOp>) -> Seq<QueryOpView> {
    ops.map_values(|o: QueryOp| o@)
}

impl View for LazyQuery {
    type V = LazyQueryView;

    open spec fn view(&self) -> LazyQueryView {
        LazyQueryView { path: self.path@, format: self.format, ops: ops_view(self.ops@) }
    }
}

pub open spec fn with_op(q: LazyQueryView, op: QueryOpView) -> LazyQueryView {
    LazyQueryView { path: q.path, format: q.format, ops: q.ops.push(op) }
}

pub open spec fn query_result_view(r: Result<LazyQuery, String>) -> Result<LazyQueryView, Seq<char>> {
    match r {
        Ok(q) => Ok(q@),
        Err(e) => Err(e@),
    }
}

/// The query with one more step at its end.
pub fn push_query_op(q: LazyQuery, op: QueryOp) -> (r: LazyQuery)
    ensures
        r@ == with_op(q@, op@),
{
    let mut q = q;
    let ghost before = q.ops@;
    q.ops.push(op);
    assert(ops_view(q.ops@) =~= ops_view(before).push(op@));
    q
}

// ---------------------------------------------------------------------------
// Formats
// ---------------------------------------------------------------------------

/// The reader for a file extension (in lowercase).
pub open spec fn scan_format_spec(ext: Seq<char>) -> Result<FileFormat, Seq<char>> {
    if ext == "parquet"@ {
        Ok(FileFormat::Parquet)
    } else if ext == "csv"@ {
        Ok(FileFormat::Csv)
    } else {
        Err("Unsupported file format: ."@ + ext)
    }
}

/// The reader for a file extension: Parquet or CSV; any other extension is
/// refused.
pub fn scan_format(ext: &str) -> (r: Result<FileFormat, String>)
    ensures
        result_format_view(r) == scan_format_spec(ext@),
{
    if str_eq(ext, "parquet") {
        Ok(FileFormat::Parquet)
    } else if str_eq(ext, "csv") {
        Ok(FileFormat::Csv)
    } else {
        let mut msg = owned("Unsupported file format: .");
        msg.append(ext);
        Err(msg)
    }
}

pub open spec fn result_format_view(r: Result<FileFormat, String>) -> Result<FileFormat, Seq<char>> {
    match r {
        Ok(f) => Ok(f),
        Err(e) => Err(e@),
    }
}

/// The writer for a file extension (in lowercase): Parquet for `parquet`, CSV
/// for anything else.
pub open spec fn write_format_spec(ext: Seq<char>) -> FileFormat {
    if ext == "parquet"@ { FileFormat::Parquet } else { FileFormat::Csv }
}

pub fn write_format(ext: &str) -> (r: FileFormat)
    ensures
        r == write_format_spec(ext@),
{
    if str_eq(ext, "parquet") { FileFormat::Parquet } else { FileFormat::Csv }
}

/// The format in which a file is written, from the extension of its path.
pub fn output_format(path: &str) -> (r: FileFormat)
    ensures
        r == write_format_spec(file_ext_spec(path@)),
{
    let ext = file_ext(path);
    write_format(ext.as_str())
}

/// How the rows of a scanned file are counted.
#[derive(Clone, Copy, Debug, PartialEq, Eq)]
pub enum RowCountMethod {
    /// Ask the engine for the length of the scan (Parquet keeps it in its
    /// metadata).
    Engine,
    /// Count the lines of the file and leave out the header line.
    LinesAfterHeader,
}

pub open spec fn row_count_method_spec(ext: Seq<char>) -> RowCountMethod {
    if ext == "parquet"@ { RowCountMethod::Engine } else { RowCountMethod::LinesAfterHeader }
}

/// How the rows of a file with extension `ext` (in lowercase) are counted.
pub fn count_method(ext: &str) -> (r: RowCountMethod)
    ensures
        r == row_count_method_spec(ext@),
{
    if str_eq(ext, "parquet") { RowCountMethod::Engine } else { RowCountMethod::LinesAfterHeader }
}

/// How the rows of the file at `path` are counted.
pub fn row_count_method(path: &str) -> (r: RowCountMethod)
    ensures
        r == row_count_method_spec(file_ext_spec(path@)),
{
    let ext = file_ext(path);
    count_method(ext.as_str())
}

/// The number of data rows of a CSV file with `lines` lines, the first of
/// which is the header.
pub fn rows_after_header(lines: usize) -> (r: usize)
    ensures
        r == (if lines == 0 { 0 } else { lines - 1 }),
{
    if lines == 0 { 0 } else { lines - 1 }
}

// ---------------------------------------------------------------------------
// Building a query
// ---------------------------------------------------------------------------

pub open spec fn scan_spec(path: Seq<char>) -> Result<LazyQueryView, Seq<char>> {
    match scan_format_spec(file_ext_spec(path)) {
        Ok(f) => Ok(LazyQueryView { path, format: f, ops: Seq::empty() }),
        Err(e) => Err(e),
    }
}

/// A query that scans the file at `path`, read as Parquet or CSV by its
/// extension.
pub fn scan_file(path: &str) -> (r: Result<LazyQuery, String>)
    ensures
        query_result_view(r) == scan_spec(path@),
{
    let ext = file_ext(path);
    match scan_format(ext.as_str()) {
        Ok(format) => {
            let q = LazyQuery { path: owned(path), format, ops: Vec::new() };
            assert(ops_view(q.ops@) =~= Seq::<QueryOpView>::empty());
            Ok(q)
        },
        Err(e) => Err(e),
    }
}

pub open spec fn apply_filters_spec(
    q: LazyQueryView,
    fs: Seq<crate::filter::FilterSpecView>,
    schema: Seq<crate::schema::ColumnInfoView>,
) -> Result<LazyQueryView, Seq<char>> {
    match combined_filter_spec(fs, schema) {
        Err(e) => Err(e),
        Ok(None) => Ok(q),
        Ok(Some(x)) => Ok(with_op(q, QueryOpView::Filter(x))),
    }
}

/// Joins all filters with AND and adds them to the query as one filter step.
/// With no filters the query comes back unchanged.
pub fn apply_filters(lf: LazyQuery, filters: &[FilterSpec], schema: &[ColumnInfo]) -> (r: Result<LazyQuery, String>)
    ensures
        query_result_view(r) == apply_filters_spec(lf@, filters_view(filters@), columns_view(schema@)),
{
    match combine_filters(filters, schema) {
        Err(e) => Err(e),
        Ok(None) => Ok(lf),
        Ok(Some(x)) => Ok(push_query_op(lf, QueryOp::Filter(x))),
    }
}

pub open spec fn select_spec(q: LazyQueryView, columns: Seq<Seq<char>>) -> LazyQueryView {
    if columns.len() == 0 { q } else { with_op(q, QueryOpView::Select(columns)) }
}

/// Projects the query to the given columns; with no columns every column
/// passes through.
pub fn apply_column_select(lf: LazyQuery, columns: &[String]) -> (r: LazyQuery)
    ensures
        r@ == select_spec(lf@, strings_view(columns@)),
{
    if columns.len() == 0 {
        lf
    } else {
        push_query_op(lf, QueryOp::Select(copy_strings(columns)))
    }
}

pub open spec fn sort_spec(q: LazyQueryView, sort_col: Option<Seq<char>>, descending: bool) -> LazyQueryView {
    match sort_col {
        Some(c) => with_op(q, QueryOpView::Sort(c, descending)),
        None => q,
    }
}

pub open spec fn opt_str_view(s: Option<&str>) -> Option<Seq<char>> {
    match s {
        Some(v) => Some(v@),
        None => None,
    }
}

/// The query shared by the table view, the chart and the export: scan, then
/// filter, then sort, then project.
pub open spec fn pipeline_spec(
    path: Seq<char>,
    fs: Seq<crate::filter::FilterSpecView>,
    schema: Seq<crate::schema::ColumnInfoView>,
    sort_col: Option<Seq<char>>,
    descending: bool,
    columns: Seq<Seq<char>>,
) -> Result<LazyQueryView, Seq<char>> {
    match scan_spec(path) {
        Err(e) => Err(e),
        Ok(q0) => match apply_filters_spec(q0, fs, schema) {
            Err(e) => Err(e),
            Ok(q1) => Ok(select_spec(sort_spec(q1, sort_col, descending), columns)),
        },
    }
}

/// Builds the query scan → filter → sort → project. The projection comes after
/// the sort, so sorting on a column that is not shown works.
pub fn build_pipeline(
    path: &str,
    filters: &[FilterSpec],
    schema: &[ColumnInfo],
    sort_col: Option<&str>,
    sort_desc: bool,
    columns: &[String],
) -> (r: Result<LazyQuery, String>)
    ensures
        query_result_view(r) == pipeline_spec(
            path@,
            filters_view(filters@),
            columns_view(schema@),
            opt_str_view(sort_col),
            sort_desc,
            strings_view(columns@),
        ),
{
    let lf = match scan_file(path) {
        Ok(q) => q,
        Err(e) => return Err(e),
    };
    let lf = match apply_filters(lf, filters, schema) {
        Ok(q) => q,
        Err(e) => return Err(e),
    };
    let lf = match sort_col {
        Some(c) => push_query_op(lf, QueryOp::Sort { column: owned(c), descending: sort_desc }),
        None => lf,
    };
    Ok(apply_column_select(lf, columns))
}

/// The columns of a chart: the x column, then the y columns.
pub open spec fn chart_columns(x_col: Seq<char>, y_cols: Seq<Seq<char>>) -> Seq<Seq<char>> {
    seq![x_col] + y_cols
}

/// The query whose rows feed a chart: the filtered rows in ascending order of
/// the x column, projected to the x column and the y columns.
pub fn get_chart_rows(
    path: &str,
    x_col: &str,
    y_cols: &[String],
    filters: &[FilterSpec],
    schema: &[ColumnInfo],
) -> (r: Result<LazyQuery, String>)
    ensures
        query_result_view(r) == pipeline_spec(
            path@,
            filters_view(filters@),
            columns_view(schema@),
            Some(x_col@),
            false,
            chart_columns(x_col@, strings_view(y_cols@)),
        ),
{
    let mut cols: Vec<String> = Vec::new();
    cols.push(owned(x_col));
    let mut i: usize = 0;
    while i < y_cols.len()
        invariant
            i <= y_cols@.len(),
            strings_view(cols@) == chart_columns(x_col@, strings_view(y_cols@).take(i as int)),
        decreases y_cols@.len() - i,
    {
        let ghost before = cols@;
        cols.push(y_cols[i].clone());
        assert(strings_view(cols@) =~= strings_view(before).push(y_cols@[i as int]@));
        assert(strings_view(y_cols@).take(i + 1) =~= strings_view(y_cols@).take(i as int).push(y_cols@[i as int]@));
        i = i + 1;
    }
    assert(strings_view(y_cols@).take(i as int) =~= strings_view(y_cols@));
    build_pipeline(path, filters, schema, Some(x_col), false, cols.as_slice())
}

} // verus!
