use data_framer::schema::{dtype_to_str, extract_schema, ColumnInfo, DataType, Field};

#[test]
fn type_names_for_the_front_end() {
    let cases = [
        (DataType::Int8, "integer"),
        (DataType::Int16, "integer"),
        (DataType::Int32, "integer"),
        (DataType::Int64, "integer"),
        (DataType::UInt8, "integer"),
        (DataType::UInt16, "integer"),
        (DataType::UInt32, "integer"),
        (DataType::UInt64, "integer"),
        (DataType::Float32, "float"),
        (DataType::Float64, "float"),
        (DataType::Boolean, "boolean"),
        (DataType::Date, "date"),
        (DataType::Datetime, "datetime"),
        (DataType::Decimal, "decimal"),
        (DataType::Time, "time"),
        (DataType::Duration, "duration"),
        (DataType::Categorical, "categorical"),
        (DataType::Enum, "categorical"),
        (DataType::Binary, "binary"),
        (DataType::BinaryOffset, "binary"),
        (DataType::List, "list"),
        (DataType::Array, "list"),
        (DataType::Struct, "struct"),
        (DataType::String, "string"),
        (DataType::Null, "string"),
        (DataType::Other, "string"),
    ];
    for (t, name) in cases {
        assert_eq!(dtype_to_str(&t), name);
    }
}

#[test]
fn schema_keeps_column_order() {
    let cols = extract_schema(&[
        Field { name: "id".to_string(), dtype: DataType::Int64 },
        Field { name: "when".to_string(), dtype: DataType::Datetime },
    ]);
    assert_eq!(
        cols,
        vec![
            ColumnInfo { name: "id".to_string(), dtype: "integer".to_string() },
            ColumnInfo { name: "when".to_string(), dtype: "datetime".to_string() },
        ]
    );
    assert!(extract_schema(&[]).is_empty());
}
