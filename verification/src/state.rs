//! The state of a viewer session and the queries that its commands run.
//!
//! A session remembers the file it loaded: its path, its row count and its
//! schema. Every command other than loading works on that file; before one is
//! loaded they all fail with "No file loaded".

use vstd::prelude::*;
use vstd::string::*;

use crate::expr::{BinaryOp, ExprView, Literal, LiteralView, binary, binary_v, col, col_v, lit, lit_v};
use crate::filter::{FilterSpec, FilterSpecView, filters_view};
use crate::query::{
    FileFormat, LazyQuery, LazyQueryView, QueryOp, QueryOpView, apply_filters, apply_filters_spec,
    build_pipeline, chart_columns, get_chart_rows, opt_str_view, output_format,
    pipeline_spec, push_query_op, query_result_view, scan_file, scan_spec, with_op,
    write_format_spec,
};
use crate::schema::{ColumnInfo, ColumnInfoView, columns_view, copy_columns};
use crate::text::{file_ext_spec, owned, strings_view};

verus! {

/// The file a session has loaded.
#[derive(Debug)]
pub struct LoadedFile {
    pub path: String,
    pub total_rows: usize,
    pub schema: Vec<ColumnInfo>,
}

pub struct LoadedFileView {
    pub path: Seq<char>,
    pub total_rows: usize,
    pub schema: Seq<ColumnInfoView>,
}

impl View for LoadedFile {
    type V = LoadedFileView;

    open spec fn view(&self) -> LoadedFileView {
        LoadedFileView { path: self.path@, total_rows: self.total_rows, schema: columns_view(self.schema@) }
    }
}

/// What loading a file reports to the front end.
#[derive(Debug)]
pub struct FileInfo {
    pub path: String,
    pub total_rows: usize,
    pub columns: Vec<ColumnInfo>,
}

pub struct FileInfoView {
    pub path: Seq<char>,
    pub total_rows: usize,
    pub columns: Seq<ColumnInfoView>,
}

impl View for FileInfo {
    type V = FileInfoView;

    open spec fn view(&self) -> FileInfoView {
        FileInfoView { path: self.path@, total_rows: self.total_rows, columns: columns_view(self.columns@) }
    }
}

/// The state of a session: the loaded file, if any, and a file named at start
/// up, if any.
#[derive(Debug)]
pub struct AppState {
    pub file: Option<LoadedFile>,
    pub startup_file: Option<String>,
}

pub struct AppStateView {
    pub file: Option<LoadedFileView>,
    pub startup_file: Option<Seq<char>>,
}

impl View for AppState {
    type V = AppStateView;

    open spec fn view(&self) -> AppStateView {
        AppStateView {
            file: match self.file {
                Some(f) => Some(f@),
                None => None,
            },
            startup_file: match self.startup_file {
                Some(s) => Some(s@),
                None => None,
            },
        }
    }
}

/// The session after loading a file with the given path, row count and schema.
pub open spec fn after_load(s: AppStateView, path: Seq<char>, total_rows: usize, columns: Seq<ColumnInfoView>) -> AppStateView {
    AppStateView {
        file: Some(LoadedFileView { path, total_rows, schema: columns }),
        startup_file: s.startup_file,
    }
}

/// The loaded file of a session, or the error every command reports without one.
pub open spec fn loaded_spec(s: AppStateView) -> Result<LoadedFileView, Seq<char>> {
    match s.file {
        Some(f) => Ok(f),
        None => Err("No file loaded"@),
    }
}

/// The rows of one page of the table view, and how to count the rows that the
/// filters let through.
#[derive(Debug)]
pub struct RowsQuery {
    /// The filtered, sorted and projected rows of the file.
    pub query: LazyQuery,
    /// Whether the total is counted from `query` (when there are filters) or
    /// is the row count of the file.
    pub count_filtered: bool,
    pub unfiltered_rows: usize,
    /// The page: `len` rows from `offset` on.
    pub offset: i64,
    pub len: u32,
}

/// Writing the current view of the file to `dest`.
#[derive(Debug)]
pub struct ExportPlan {
    pub query: LazyQuery,
    pub dest: String,
    pub format: FileFormat,
}

/// The bounding-box predicate: latitude within [min_lat, max_lat] and longitude
/// within [min_lon, max_lon], joined left to right.
pub open spec fn bbox_spec(lat: Seq<char>, lon: Seq<char>, min_lat: u64, max_lat: u64, min_lon: u64, max_lon: u64) -> ExprView {
    binary_v(
        BinaryOp::And,
        binary_v(
            BinaryOp::And,
            binary_v(
                BinaryOp::And,
                binary_v(BinaryOp::GreaterEqual, col_v(lat), lit_v(LiteralView::Float64Bits(min_lat))),
                binary_v(BinaryOp::LessEqual, col_v(lat), lit_v(LiteralView::Float64Bits(max_lat))),
            ),
            binary_v(BinaryOp::GreaterEqual, col_v(lon), lit_v(LiteralView::Float64Bits(min_lon))),
        ),
        binary_v(BinaryOp::LessEqual, col_v(lon), lit_v(LiteralView::Float64Bits(max_lon))),
    )
}

/// The map query: scan, filters, the bounding box when all four bounds are
/// given, then the two coordinate columns.
pub open spec fn map_points_spec(
    f: LoadedFileView,
    lat: Seq<char>,
    lon: Seq<char>,
    fs: Seq<FilterSpecView>,
    bounds: Option<(u64, u64, u64, u64)>,
) -> Result<LazyQueryView, Seq<char>> {
    match scan_spec(f.path) {
        Err(e) => Err(e),
        Ok(q0) => match apply_filters_spec(q0, fs, f.schema) {
            Err(e) => Err(e),
            Ok(q1) => {
                let q2 = match bounds {
                    Some(b) => with_op(q1, QueryOpView::Filter(bbox_spec(lat, lon, b.0, b.1, b.2, b.3))),
                    None => q1,
                };
                Ok(with_op(q2, QueryOpView::Select(seq![lat, lon])))
            },
        },
    }
}

pub open spec fn all_bounds(a: Option<u64>, b: Option<u64>, c: Option<u64>, d: Option<u64>) -> Option<(u64, u64, u64, u64)> {
    match (a, b, c, d) {
        (Some(a), Some(b), Some(c), Some(d)) => Some((a, b, c, d)),
        _ => None,
    }
}

/// The query for an H3 cell column: scan, filters, then that one column.
pub open spec fn h3_spec(f: LoadedFileView, h3: Seq<char>, fs: Seq<FilterSpecView>) -> Result<LazyQueryView, Seq<char>> {
    match scan_spec(f.path) {
        Err(e) => Err(e),
        Ok(q0) => match apply_filters_spec(q0, fs, f.schema) {
            Err(e) => Err(e),
            Ok(q1) => Ok(with_op(q1, QueryOpView::Select(seq![h3]))),
        },
    }
}

/// The number of rows in a page of at most `limit` rows: none for a limit of
/// zero or less; a positive limit is read as a `u32`, the engine's page length
/// (a limit past `u32::MAX` keeps its low 32 bits).
pub open spec fn page_len(limit: i64) -> u32 {
    if limit <= 0 { 0 } else { limit as u32 }
}

/// The length of a page of at most `limit` rows.
pub fn page_length(limit: i64) -> (r: u32)
    ensures
        r == page_len(limit),
        r <= (if limit <= 0 { 0 } else { limit as int }),
{
    if limit <= 0 {
        0
    } else {
        limit as u32
    }
}

fn two_columns(a: &str, b: &str) -> (r: Vec<String>)
    ensures
        strings_view(r@) == seq![a@, b@],
{
    let mut r: Vec<String> = Vec::new();
    r.push(owned(a));
    r.push(owned(b));
    assert(strings_view(r@) =~= seq![a@, b@]);
    r
}

impl AppState {
    /// A session with no file.
    pub fn new() -> (r: AppState)
        ensures
            r@.file is None,
            r@.startup_file is None,
    {
        AppState { file: None, startup_file: None }
    }

    /// Remembers the file at `path` with its row count and schema, and reports
    /// the same to the front end.
    pub fn load_file(&mut self, path: String, total_rows: usize, columns: Vec<ColumnInfo>) -> (r: FileInfo)
        ensures
            final(self)@ == after_load(old(self)@, path@, total_rows, columns_view(columns@)),
            r@ == (FileInfoView { path: path@, total_rows, columns: columns_view(columns@) }),
    {
        let schema = copy_columns(columns.as_slice());
        self.file = Some(LoadedFile { path: path.clone(), total_rows, schema });
        FileInfo { path, total_rows, columns }
    }

    /// The loaded file.
    pub fn loaded(&self) -> (r: Result<&LoadedFile, String>)
        ensures
            match r {
                Ok(f) => loaded_spec(self@) == Ok::<LoadedFileView, Seq<char>>(f@),
                Err(e) => loaded_spec(self@) == Err::<LoadedFileView, Seq<char>>(e@),
            },
    {
        match &self.file {
            Some(f) => Ok(f),
            None => Err(owned("No file loaded")),
        }
    }

    /// One page of the table view of the loaded file: the shared pipeline, the
    /// page window (at most `limit` rows, none for a `limit` of zero or less), and
    /// whether the filtered rows have to be counted; they have to only when
    /// there are filters.
    pub fn rows_query(
        &self,
        offset: i64,
        limit: i64,
        sort_col: Option<&str>,
        sort_desc: bool,
        filters: &[FilterSpec],
        columns: &[String],
    ) -> (r: Result<RowsQuery, String>)
        ensures
            match loaded_spec(self@) {
                Err(e) => r matches Err(m) && m@ == e,
                Ok(f) => match pipeline_spec(
                    f.path,
                    filters_view(filters@),
                    f.schema,
                    opt_str_view(sort_col),
                    sort_desc,
                    strings_view(columns@),
                ) {
                    Err(e) => r matches Err(m) && m@ == e,
                    Ok(q) => r matches Ok(rq) && rq.query@ == q && rq.count_filtered == (filters@.len() != 0)
                        && rq.unfiltered_rows == f.total_rows && rq.offset == offset && rq.len == page_len(limit),
                },
            },
    {
        let file = match self.loaded() {
            Ok(f) => f,
            Err(e) => return Err(e),
        };
        let query = match build_pipeline(file.path.as_str(), filters, file.schema.as_slice(), sort_col, sort_desc, columns) {
            Ok(q) => q,
            Err(e) => return Err(e),
        };
        Ok(RowsQuery {
            query,
            count_filtered: filters.len() != 0,
            unfiltered_rows: file.total_rows,
            offset,
            len: page_length(limit),
        })
    }

    /// The coordinates query of the loaded file. The bounds are IEEE-754 bit
    /// patterns of 64-bit floats; the bounding box applies only when all four
    /// are given.
    pub fn map_points_query(
        &self,
        lat_col: &str,
        lon_col: &str,
        filters: &[FilterSpec],
        min_lat: Option<u64>,
        max_lat: Option<u64>,
        min_lon: Option<u64>,
        max_lon: Option<u64>,
    ) -> (r: Result<LazyQuery, String>)
        ensures
            match loaded_spec(self@) {
                Err(e) => r matches Err(m) && m@ == e,
                Ok(f) => query_result_view(r) == map_points_spec(
                    f,
                    lat_col@,
                    lon_col@,
                    filters_view(filters@),
                    all_bounds(min_lat, max_lat, min_lon, max_lon),
                ),
            },
    {
        let file = match self.loaded() {
            Ok(f) => f,
            Err(e) => return Err(e),
        };
        let lf = match scan_file(file.path.as_str()) {
            Ok(q) => q,
            Err(e) => return Err(e),
        };
        let mut lf = match apply_filters(lf, filters, file.schema.as_slice()) {
            Ok(q) => q,
            Err(e) => return Err(e),
        };
        if let (Some(a), Some(b), Some(c), Some(d)) = (min_lat, max_lat, min_lon, max_lon) {
            let bbox = binary(
                BinaryOp::And,
                binary(
                    BinaryOp::And,
                    binary(
                        BinaryOp::And,
                        binary(BinaryOp::GreaterEqual, col(owned(lat_col)), lit(Literal::Float64Bits(a))),
                        binary(BinaryOp::LessEqual, col(owned(lat_col)), lit(Literal::Float64Bits(b))),
                    ),
                    binary(BinaryOp::GreaterEqual, col(owned(lon_col)), lit(Literal::Float64Bits(c))),
                ),
                binary(BinaryOp::LessEqual, col(owned(lon_col)), lit(Literal::Float64Bits(d))),
            );
            lf = push_query_op(lf, QueryOp::Filter(bbox));
        }
        Ok(push_query_op(lf, QueryOp::Select(two_columns(lat_col, lon_col))))
    }

    /// The query for the H3 cell column `h3_col` of the loaded file.
    pub fn h3_query(&self, h3_col: &str, filters: &[FilterSpec]) -> (r: Result<LazyQuery, String>)
        ensures
            match loaded_spec(self@) {
                Err(e) => r matches Err(m) && m@ == e,
                Ok(f) => query_result_view(r) == h3_spec(f, h3_col@, filters_view(filters@)),
            },
    {
        let file = match self.loaded() {
            Ok(f) => f,
            Err(e) => return Err(e),
        };
        let lf = match scan_file(file.path.as_str()) {
            Ok(q) => q,
            Err(e) => return Err(e),
        };
        let lf = match apply_filters(lf, filters, file.schema.as_slice()) {
            Ok(q) => q,
            Err(e) => return Err(e),
        };
        let mut cols: Vec<String> = Vec::new();
        cols.push(owned(h3_col));
        assert(strings_view(cols@) =~= seq![h3_col@]);
        Ok(push_query_op(lf, QueryOp::Select(cols)))
    }

    /// The chart query of the loaded file.
    pub fn chart_query(&self, x_col: &str, y_cols: &[String], filters: &[FilterSpec]) -> (r: Result<LazyQuery, String>)
        ensures
            match loaded_spec(self@) {
                Err(e) => r matches Err(m) && m@ == e,
                Ok(f) => query_result_view(r) == pipeline_spec(
                    f.path,
                    filters_view(filters@),
                    f.schema,
                    Some(x_col@),
                    false,
                    chart_columns(x_col@, strings_view(y_cols@)),
                ),
            },
    {
        let file = match self.loaded() {
            Ok(f) => f,
            Err(e) => return Err(e),
        };
        get_chart_rows(file.path.as_str(), x_col, y_cols, filters, file.schema.as_slice())
    }

    /// Writing the current view (sort, filters and columns applied) of the
    /// loaded file to `dest`, in the format that the extension of `dest` names.
    pub fn export_query(
        &self,
        dest: &str,
        sort_col: Option<&str>,
        sort_desc: bool,
        filters: &[FilterSpec],
        columns: &[String],
    ) -> (r: Result<ExportPlan, String>)
        ensures
            match loaded_spec(self@) {
                Err(e) => r matches Err(m) && m@ == e,
                Ok(f) => match pipeline_spec(
                    f.path,
                    filters_view(filters@),
                    f.schema,
                    opt_str_view(sort_col),
                    sort_desc,
                    strings_view(columns@),
                ) {
                    Err(e) => r matches Err(m) && m@ == e,
                    Ok(q) => r matches Ok(p) && p.query@ == q && p.dest@ == dest@
                        && p.format == write_format_spec(file_ext_spec(dest@)),
                },
            },
    {
        let file = match self.loaded() {
            Ok(f) => f,
            Err(e) => return Err(e),
        };
        let query = match build_pipeline(file.path.as_str(), filters, file.schema.as_slice(), sort_col, sort_desc, columns) {
            Ok(q) => q,
            Err(e) => return Err(e),
        };
        Ok(ExportPlan { query, dest: owned(dest), format: output_format(dest) })
    }
}

/// The points among the first `n` rows: the rows where both coordinates are
/// present, in order.
pub open spec fn points_upto(lats: Seq<Option<u64>>, lons: Seq<Option<u64>>, n: int) -> Seq<(u64, u64)>
    decreases n,
{
    if n <= 0 {
        Seq::empty()
    } else {
        let before = points_upto(lats, lons, n - 1);
        match (lats[n - 1], lons[n - 1]) {
            (Some(a), Some(b)) => before.push((a, b)),
            _ => before,
        }
    }
}

pub open spec fn min_len(a: int, b: int) -> int {
    if a <= b { a } else { b }
}

/// The map points of a query result: latitude and longitude paired row by row
/// (as far as both columns go), keeping the rows where both are present.
/// Coordinates are IEEE-754 bit patterns of 64-bit floats.
pub fn map_points(lats: &[Option<u64>], lons: &[Option<u64>]) -> (r: Vec<(u64, u64)>)
    ensures
        r@ == points_upto(lats@, lons@, min_len(lats@.len() as int, lons@.len() as int)),
{
    let n = if lats.len() <= lons.len() { lats.len() } else { lons.len() };
    let mut r: Vec<(u64, u64)> = Vec::new();
    let mut i: usize = 0;
    while i < n
        invariant
            n == min_len(lats@.len() as int, lons@.len() as int),
            i <= n,
            r@ == points_upto(lats@, lons@, i as int),
        decreases n - i,
    {
        match (lats[i], lons[i]) {
            (Some(a), Some(b)) => r.push((a, b)),
            _ => {},
        }
        i = i + 1;
    }
    r
}

/// The values present among the first `n` cells, in order.
pub open spec fn present_upto(vals: Seq<Option<String>>, n: int) -> Seq<Seq<char>>
    decreases n,
{
    if n <= 0 {
        Seq::empty()
    } else {
        let before = present_upto(vals, n - 1);
        match vals[n - 1] {
            Some(s) => before.push(s@),
            None => before,
        }
    }
}

/// The values of a column that are not null, in order (the H3 cell indexes of
/// the map layer).
pub fn present_values(vals: &[Option<String>]) -> (r: Vec<String>)
    ensures
        strings_view(r@) == present_upto(vals@, vals@.len() as int),
{
    let mut r: Vec<String> = Vec::new();
    let mut i: usize = 0;
    while i < vals.len()
        invariant
            i <= vals@.len(),
            strings_view(r@) == present_upto(vals@, i as int),
        decreases vals@.len() - i,
    {
        let ghost before = r@;
        match &vals[i] {
            Some(s) => {
                r.push(s.clone());
                assert(strings_view(r@) =~= strings_view(before).push(s@));
            },
            None => {},
        }
        i = i + 1;
    }
    r
}

} // verus!
