use data_framer::json::{frame_to_rows, CellValue, Column, DataFrame, JsonValue};
use data_framer::query::{output_format, scan_file, FileFormat};
use data_framer::schema::{dtype_to_str, extract_schema, DataType, Field};

fn s(x: &str) -> String {
    x.to_string()
}

/// The frame {"a": [1, 2], "b": ["x", "y"]} folded into one struct column "st".
fn struct_frame() -> DataFrame {
    let row = |a: i64, b: &str| CellValue::Struct {
        names: vec![s("a"), s("b")],
        values: vec![CellValue::Int(a), CellValue::Utf8(s(b))],
    };
    DataFrame {
        columns: vec![Column { name: s("st"), values: vec![row(1, "x"), row(2, "y")] }],
        height: 2,
    }
}

fn object(entries: Vec<(&str, JsonValue)>) -> JsonValue {
    JsonValue::Object(entries.into_iter().map(|(k, v)| (s(k), v)).collect())
}

#[test]
fn struct_serializes_with_field_names() {
    assert_eq!(dtype_to_str(&DataType::Struct), "struct");
    let rows = frame_to_rows(&struct_frame());
    assert_eq!(
        rows[0],
        object(vec![("st", object(vec![("a", JsonValue::Int(1)), ("b", JsonValue::String(s("x")))]))])
    );
}

#[test]
fn list_serializes_as_json_array() {
    assert_eq!(dtype_to_str(&DataType::List), "list");
    let df = DataFrame {
        columns: vec![Column {
            name: s("xs"),
            values: vec![CellValue::List(vec![CellValue::Int(1), CellValue::Int(2), CellValue::Int(3)])],
        }],
        height: 1,
    };
    let rows = frame_to_rows(&df);
    assert_eq!(
        rows[0],
        object(vec![(
            "xs",
            JsonValue::Array(vec![JsonValue::Int(1), JsonValue::Int(2), JsonValue::Int(3)])
        )])
    );
}

#[test]
fn nested_parquet_round_trip() {
    let path = "/tmp/data_framer_nested_test.parquet";
    assert_eq!(output_format(path), FileFormat::Parquet);
    let lf = scan_file(path).unwrap();
    assert_eq!(lf.format, FileFormat::Parquet);
    assert!(lf.ops.is_empty());

    let schema = extract_schema(&[
        Field { name: s("st"), dtype: DataType::Struct },
        Field { name: s("xs"), dtype: DataType::List },
    ]);
    let dtypes: std::collections::HashMap<_, _> =
        schema.iter().map(|c| (c.name.as_str(), c.dtype.as_str())).collect();
    assert_eq!(dtypes["st"], "struct");
    assert_eq!(dtypes["xs"], "list");

    let mut df = struct_frame();
    df.columns.push(Column {
        name: s("xs"),
        values: vec![
            CellValue::List(vec![CellValue::Int(1), CellValue::Int(2)]),
            CellValue::List(vec![CellValue::Int(1), CellValue::Int(2)]),
        ],
    });
    let rows = frame_to_rows(&df);
    match &rows[0] {
        JsonValue::Object(es) => {
            assert_eq!(es[0].1, object(vec![("a", JsonValue::Int(1)), ("b", JsonValue::String(s("x")))]));
            match &es[1].1 {
                JsonValue::Array(xs) => assert_eq!(xs[0], JsonValue::Int(1)),
                other => panic!("not an array: {:?}", other),
            }
        }
        other => panic!("not an object: {:?}", other),
    }
}
