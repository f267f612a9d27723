use data_framer::expr::{binary, col, lit, BinaryOp, Literal};
use data_framer::filter::FilterSpec;
use data_framer::query::{FileFormat, QueryOp};
use data_framer::schema::ColumnInfo;
use data_framer::state::{map_points, present_values, AppState};

fn s(x: &str) -> String {
    x.to_string()
}

fn columns() -> Vec<ColumnInfo> {
    vec![
        ColumnInfo { name: s("lat"), dtype: s("float") },
        ColumnInfo { name: s("lon"), dtype: s("float") },
        ColumnInfo { name: s("n"), dtype: s("integer") },
        ColumnInfo { name: s("h3"), dtype: s("string") },
    ]
}

fn loaded() -> AppState {
    let mut st = AppState::new();
    st.load_file(s("trips.parquet"), 10, columns());
    st
}

fn gt(column: &str, value: &str) -> FilterSpec {
    FilterSpec { column: s(column), op: s("gt"), value: Some(s(value)), value2: None }
}

#[test]
fn commands_need_a_loaded_file() {
    let st = AppState::new();
    assert_eq!(st.loaded().unwrap_err(), "No file loaded");
    assert_eq!(st.rows_query(0, 10, None, false, &[], &[]).unwrap_err(), "No file loaded");
    assert_eq!(st.h3_query("h3", &[]).unwrap_err(), "No file loaded");
    assert_eq!(st.chart_query("n", &[], &[]).unwrap_err(), "No file loaded");
    assert_eq!(st.export_query("o.csv", None, false, &[], &[]).unwrap_err(), "No file loaded");
    assert_eq!(st.map_points_query("lat", "lon", &[], None, None, None, None).unwrap_err(), "No file loaded");
}

#[test]
fn loading_reports_and_remembers_the_file() {
    let mut st = AppState::new();
    let info = st.load_file(s("trips.parquet"), 10, columns());
    assert_eq!(info.path, "trips.parquet");
    assert_eq!(info.total_rows, 10);
    assert_eq!(info.columns, columns());
    let f = st.loaded().unwrap();
    assert_eq!(f.path, "trips.parquet");
    assert_eq!(f.total_rows, 10);
    assert_eq!(f.schema, columns());
    assert_eq!(st.startup_file, None);
}

#[test]
fn rows_are_counted_only_under_filters() {
    let st = loaded();
    let plain = st.rows_query(20, 10, None, false, &[], &[]).unwrap();
    assert!(!plain.count_filtered);
    assert_eq!(plain.unfiltered_rows, 10);
    assert_eq!((plain.offset, plain.len), (20, 10));
    let filtered = st.rows_query(0, 10, Some("n"), false, &[gt("n", "3")], &[s("n")]).unwrap();
    assert!(filtered.count_filtered);
    assert_eq!(filtered.query.ops.len(), 3);
}

#[test]
fn page_holds_at_most_limit_rows() {
    let st = loaded();
    assert_eq!(st.rows_query(0, -1, None, false, &[], &[]).unwrap().len, 0);
    assert_eq!(st.rows_query(0, 0, None, false, &[], &[]).unwrap().len, 0);
    assert_eq!(st.rows_query(0, 25, None, false, &[], &[]).unwrap().len, 25);
    assert_eq!(st.rows_query(0, (1i64 << 32) + 5, None, false, &[], &[]).unwrap().len, 5);
    assert_eq!(data_framer::state::page_length(i64::MIN), 0);
}

#[test]
fn map_bbox_applies_only_with_all_bounds() {
    let st = loaded();
    let bits = |x: f64| x.to_bits();
    let q = st
        .map_points_query("lat", "lon", &[], Some(bits(1.0)), Some(bits(2.0)), Some(bits(3.0)), Some(bits(4.0)))
        .unwrap();
    let bound = |op, c: &str, v: f64| binary(op, col(s(c)), lit(Literal::Float64Bits(v.to_bits())));
    assert_eq!(
        q.ops,
        vec![
            QueryOp::Filter(binary(
                BinaryOp::And,
                binary(
                    BinaryOp::And,
                    binary(
                        BinaryOp::And,
                        bound(BinaryOp::GreaterEqual, "lat", 1.0),
                        bound(BinaryOp::LessEqual, "lat", 2.0)
                    ),
                    bound(BinaryOp::GreaterEqual, "lon", 3.0)
                ),
                bound(BinaryOp::LessEqual, "lon", 4.0)
            )),
            QueryOp::Select(vec![s("lat"), s("lon")]),
        ]
    );
    let q = st.map_points_query("lat", "lon", &[], Some(bits(1.0)), None, Some(bits(3.0)), Some(bits(4.0))).unwrap();
    assert_eq!(q.ops, vec![QueryOp::Select(vec![s("lat"), s("lon")])]);
}

#[test]
fn h3_query_keeps_one_column() {
    let q = loaded().h3_query("h3", &[gt("n", "1")]).unwrap();
    assert_eq!(
        q.ops,
        vec![
            QueryOp::Filter(binary(BinaryOp::Greater, col(s("n")), lit(Literal::Int64(1)))),
            QueryOp::Select(vec![s("h3")]),
        ]
    );
}

#[test]
fn export_writes_in_the_format_of_the_destination() {
    let st = loaded();
    let p = st.export_query("out.parquet", Some("n"), true, &[], &[]).unwrap();
    assert_eq!(p.format, FileFormat::Parquet);
    assert_eq!(p.dest, "out.parquet");
    assert_eq!(p.query.ops, vec![QueryOp::Sort { column: s("n"), descending: true }]);
    assert_eq!(st.export_query("out.tsv", None, false, &[], &[]).unwrap().format, FileFormat::Csv);
}

#[test]
fn points_need_both_coordinates() {
    let pts = map_points(&[Some(1), None, Some(3), Some(4)], &[Some(10), Some(20), None, Some(40), Some(50)]);
    assert_eq!(pts, vec![(1, 10), (4, 40)]);
    assert_eq!(present_values(&[Some(s("a")), None, Some(s("b"))]), vec![s("a"), s("b")]);
}
