use data_framer::calendar::CalendarDate;
use data_framer::expr::{binary, cast, col, lit, string_match, unary, BinaryOp, CastType, Expr, Literal, StringOp, UnaryOp};
use data_framer::filter::{
    build_filter_expr, combine_filters, date_value, integer_value, parse_value, FilterSpec,
};
use data_framer::schema::{dtype_to_str, ColumnInfo, DataType};

fn s(x: &str) -> String {
    x.to_string()
}

fn spec(column: &str, op: &str, value: Option<&str>, value2: Option<&str>) -> FilterSpec {
    FilterSpec { column: s(column), op: s(op), value: value.map(s), value2: value2.map(s) }
}

fn c(name: &str) -> Expr {
    col(s(name))
}

#[test]
fn integer_values_parse() {
    assert_eq!(parse_value("42", "integer").unwrap(), lit(Literal::Int64(42)));
    assert_eq!(parse_value("-7", "integer").unwrap(), lit(Literal::Int64(-7)));
    assert_eq!(parse_value("+9223372036854775807", "integer").unwrap(), lit(Literal::Int64(i64::MAX)));
}

#[test]
fn integer_errors_name_the_value() {
    assert_eq!(
        parse_value("abc", "integer").unwrap_err(),
        "Cannot parse 'abc' as integer: invalid digit found in string"
    );
    assert_eq!(
        parse_value("", "integer").unwrap_err(),
        "Cannot parse '' as integer: cannot parse integer from empty string"
    );
    assert_eq!(
        parse_value("9223372036854775808", "integer").unwrap_err(),
        "Cannot parse '9223372036854775808' as integer: number too large to fit in target type"
    );
}

#[test]
fn integer_value_takes_the_parse_result() {
    assert_eq!(integer_value("5", Ok(5)).unwrap(), lit(Literal::Int64(5)));
    assert_eq!(integer_value("x", Err(s("boom"))).unwrap_err(), "Cannot parse 'x' as integer: boom");
}

#[test]
fn float_values_keep_their_text() {
    assert_eq!(
        parse_value("1.5", "float").unwrap(),
        lit(Literal::FloatText { text: s("1.5"), dtype: s("float") })
    );
    assert_eq!(
        parse_value("2.25", "decimal").unwrap(),
        lit(Literal::FloatText { text: s("2.25"), dtype: s("decimal") })
    );
}

#[test]
fn date_values_count_days_since_epoch() {
    assert_eq!(parse_value("2024-01-15", "date").unwrap(), cast(lit(Literal::Int32(19737)), CastType::Date));
    assert_eq!(parse_value("1969-12-31", "date").unwrap(), cast(lit(Literal::Int32(-1)), CastType::Date));
    assert_eq!(parse_value("1970-01-01", "date").unwrap(), cast(lit(Literal::Int32(0)), CastType::Date));
}

#[test]
fn date_errors_name_the_format() {
    assert_eq!(
        parse_value("2024-13-01", "date").unwrap_err(),
        "Cannot parse '2024-13-01' as date (expected YYYY-MM-DD): input is out of range"
    );
    assert_eq!(
        parse_value("yesterday", "date").unwrap_err(),
        "Cannot parse 'yesterday' as date (expected YYYY-MM-DD): input contains invalid characters"
    );
}

#[test]
fn date_value_takes_the_parse_result() {
    let d = CalendarDate { year: 2000, month: 3, day: 1 };
    assert_eq!(date_value("2000-03-01", Ok(d)).unwrap(), cast(lit(Literal::Int32(11017)), CastType::Date));
    assert_eq!(
        date_value("z", Err(s("bad"))).unwrap_err(),
        "Cannot parse 'z' as date (expected YYYY-MM-DD): bad"
    );
}

#[test]
fn datetime_values_count_microseconds() {
    assert_eq!(
        parse_value("2024-01-15T12:30:45", "datetime").unwrap(),
        cast(lit(Literal::Int64(1_705_321_845_000_000)), CastType::DatetimeMicros)
    );
    assert_eq!(
        parse_value("1969-12-31T23:59:59", "datetime").unwrap(),
        cast(lit(Literal::Int64(-1_000_000)), CastType::DatetimeMicros)
    );
    assert_eq!(
        parse_value("2024-01-15", "datetime").unwrap_err(),
        "Cannot parse '2024-01-15' as datetime (expected YYYY-MM-DDTHH:MM:SS): premature end of input"
    );
}

#[test]
fn other_types_compare_as_strings() {
    assert_eq!(parse_value("abc", "string").unwrap(), lit(Literal::Utf8(s("abc"))));
    assert_eq!(parse_value("true", "boolean").unwrap(), lit(Literal::Utf8(s("true"))));
}

#[test]
fn null_and_boolean_tests_need_no_value() {
    assert_eq!(build_filter_expr(&spec("a", "is_null", None, None), "integer").unwrap(), unary(UnaryOp::IsNull, c("a")));
    assert_eq!(
        build_filter_expr(&spec("a", "is_not_null", None, None), "integer").unwrap(),
        unary(UnaryOp::IsNotNull, c("a"))
    );
    assert_eq!(
        build_filter_expr(&spec("a", "is_true", None, None), "boolean").unwrap(),
        binary(BinaryOp::Equal, c("a"), lit(Literal::Boolean(true)))
    );
    assert_eq!(
        build_filter_expr(&spec("a", "is_false", None, None), "boolean").unwrap(),
        binary(BinaryOp::Equal, c("a"), lit(Literal::Boolean(false)))
    );
}

#[test]
fn comparisons_parse_their_value() {
    let cases = [
        ("eq", BinaryOp::Equal),
        ("neq", BinaryOp::NotEqual),
        ("gt", BinaryOp::Greater),
        ("gte", BinaryOp::GreaterEqual),
        ("lt", BinaryOp::Less),
        ("lte", BinaryOp::LessEqual),
    ];
    for (op, bop) in cases {
        assert_eq!(
            build_filter_expr(&spec("n", op, Some("3"), None), "integer").unwrap(),
            binary(bop, c("n"), lit(Literal::Int64(3)))
        );
    }
}

#[test]
fn between_is_inclusive_on_both_ends() {
    assert_eq!(
        build_filter_expr(&spec("n", "between", Some("1"), Some("9")), "integer").unwrap(),
        binary(
            BinaryOp::And,
            binary(BinaryOp::GreaterEqual, c("n"), lit(Literal::Int64(1))),
            binary(BinaryOp::LessEqual, c("n"), lit(Literal::Int64(9)))
        )
    );
}

#[test]
fn string_matches_use_the_text() {
    assert_eq!(
        build_filter_expr(&spec("t", "contains", Some("ab"), None), "integer").unwrap(),
        string_match(StringOp::Contains, c("t"), lit(Literal::Utf8(s("ab"))))
    );
    assert_eq!(
        build_filter_expr(&spec("t", "not_contains", Some("ab"), None), "string").unwrap(),
        unary(UnaryOp::Not, string_match(StringOp::Contains, c("t"), lit(Literal::Utf8(s("ab")))))
    );
    assert_eq!(
        build_filter_expr(&spec("t", "starts_with", Some("ab"), None), "string").unwrap(),
        string_match(StringOp::StartsWith, c("t"), lit(Literal::Utf8(s("ab"))))
    );
    assert_eq!(
        build_filter_expr(&spec("t", "ends_with", Some("ab"), None), "string").unwrap(),
        string_match(StringOp::EndsWith, c("t"), lit(Literal::Utf8(s("ab"))))
    );
}

#[test]
fn filter_errors() {
    assert_eq!(build_filter_expr(&spec("n", "eq", None, None), "integer").unwrap_err(), "Missing filter value");
    assert_eq!(build_filter_expr(&spec("n", "foo", None, None), "integer").unwrap_err(), "Missing filter value");
    assert_eq!(
        build_filter_expr(&spec("n", "between", Some("1"), None), "integer").unwrap_err(),
        "Missing second value for 'between'"
    );
    assert_eq!(
        build_filter_expr(&spec("n", "between", Some("x"), None), "integer").unwrap_err(),
        "Missing second value for 'between'"
    );
    assert_eq!(build_filter_expr(&spec("n", "foo", Some("1"), None), "integer").unwrap_err(), "Unknown filter op: foo");
    assert_eq!(
        build_filter_expr(&spec("n", "gt", Some("x"), None), "integer").unwrap_err(),
        "Cannot parse 'x' as integer: invalid digit found in string"
    );
}

fn schema() -> Vec<ColumnInfo> {
    vec![
        ColumnInfo { name: s("n"), dtype: s("integer") },
        ColumnInfo { name: s("t"), dtype: s("string") },
        ColumnInfo { name: s("n"), dtype: s("string") },
    ]
}

#[test]
fn filters_join_with_and_in_order() {
    assert_eq!(combine_filters(&[], &schema()).unwrap(), None);
    let one = combine_filters(&[spec("n", "gt", Some("1"), None)], &schema()).unwrap();
    assert_eq!(one, Some(binary(BinaryOp::Greater, c("n"), lit(Literal::Int64(1)))));
    let three = combine_filters(
        &[spec("n", "gt", Some("1"), None), spec("t", "is_null", None, None), spec("n", "lt", Some("5"), None)],
        &schema(),
    )
    .unwrap();
    assert_eq!(
        three,
        Some(binary(
            BinaryOp::And,
            binary(
                BinaryOp::And,
                binary(BinaryOp::Greater, c("n"), lit(Literal::Int64(1))),
                unary(UnaryOp::IsNull, c("t"))
            ),
            binary(BinaryOp::Less, c("n"), lit(Literal::Int64(5)))
        ))
    );
}

#[test]
fn the_first_failing_filter_decides_the_error() {
    let err = combine_filters(
        &[spec("n", "gt", Some("x"), None), spec("missing", "is_null", None, None)],
        &schema(),
    )
    .unwrap_err();
    assert_eq!(err, "Cannot parse 'x' as integer: invalid digit found in string");
    let err = combine_filters(
        &[spec("missing", "is_null", None, None), spec("n", "gt", Some("x"), None)],
        &schema(),
    )
    .unwrap_err();
    assert_eq!(err, "Unknown column: missing");
}

#[test]
fn values_are_read_by_column_type() {
    assert_eq!(parse_value("12", dtype_to_str(&DataType::UInt16)).unwrap(), lit(Literal::Int64(12)));
    assert_eq!(
        parse_value("12", dtype_to_str(&DataType::Float32)).unwrap(),
        lit(Literal::FloatText { text: s("12"), dtype: s("float") })
    );
    assert_eq!(
        parse_value("12", dtype_to_str(&DataType::Decimal)).unwrap(),
        lit(Literal::FloatText { text: s("12"), dtype: s("decimal") })
    );
    assert_eq!(
        parse_value("1970-01-02", dtype_to_str(&DataType::Date)).unwrap(),
        cast(lit(Literal::Int32(1)), CastType::Date)
    );
    assert_eq!(
        parse_value("1970-01-01T00:01:00", dtype_to_str(&DataType::Datetime)).unwrap(),
        cast(lit(Literal::Int64(60_000_000)), CastType::DatetimeMicros)
    );
    assert_eq!(parse_value("12", dtype_to_str(&DataType::Time)).unwrap(), lit(Literal::Utf8(s("12"))));
    assert_eq!(parse_value("12", dtype_to_str(&DataType::Categorical)).unwrap(), lit(Literal::Utf8(s("12"))));
}
