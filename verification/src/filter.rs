//! User filters and the predicate expressions they become.
//!
//! A filter names a column, an operation and up to two values typed as text.
//! The text of a value is read according to the type of the column, as the
//! schema names it, and the filters of a query are joined with AND.

use vstd::prelude::*;
use vstd::string::*;

use crate::calendar::{
    CalendarDate, CalendarDateTime, chrono_date, chrono_datetime, chrono_days_between,
    chrono_micros_between, chrono_parse_date, chrono_parse_datetime, days_between, epoch_date,
    epoch_datetime, micros_between, unix_epoch_date, unix_epoch_datetime, valid_date,
    valid_datetime,
};
use crate::expr::{
    BinaryOp, CastType, Expr, ExprView, Literal, LiteralView, StringOp, UnaryOp, binary, binary_v,
    cast, cast_v, col, col_v, lit, lit_v, string_match, string_match_v, unary, unary_v,
};
use crate::schema::{ColumnInfo, ColumnInfoView, columns_view};
use crate::text::{owned, str_eq};

verus! {

/// One filter of the user: `column op value [value2]`.
#[derive(Clone, Debug, PartialEq)]
pub struct FilterSpec {
    pub column: String,
    pub op: String,
    pub value: Option<String>,
    pub value2: Option<String>,
}

pub struct FilterSpecView {
    pub column: Seq<char>,
    pub op: Seq<char>,
    pub value: Option<Seq<char>>,
    pub value2: Option<Seq<char>>,
}

pub open spec fn opt_string_view(s: Option<String>) -> Option<Seq<char>> {
    match s {
        Some(v) => Some(v@),
        None => None,
    }
}

impl View for FilterSpec {
    type V = FilterSpecView;

    open spec fn view(&self) -> FilterSpecView {
        FilterSpecView {
            column: self.column@,
            op: self.op@,
            value: opt_string_view(self.value),
            value2: opt_string_view(self.value2),
        }
    }
}

pub open spec fn filters_view(fs: Seq<FilterSpec>) -> Seq<FilterSpecView> {
    fs.map_values(|f: FilterSpec| f@)
}

pub open spec fn result_view<T>(r: Result<T, String>) -> Result<T, Seq<char>> {
    match r {
        Ok(t) => Ok(t),
        Err(e) => Err(e@),
    }
}

pub open spec fn expr_result_view(r: Result<Expr, String>) -> Result<ExprView, Seq<char>> {
    match r {
        Ok(e) => Ok(e@),
        Err(e) => Err(e@),
    }
}

// ---------------------------------------------------------------------------
// Integers
// ---------------------------------------------------------------------------

pub open spec fn is_ascii_digit(c: char) -> bool {
    '0' <= c <= '9'
}

/// The value of a string of decimal digits.
pub open spec fn digits_value(s: Seq<char>) -> int
    decreases s.len(),
{
    if s.len() == 0 {
        0
    } else {
        digits_value(s.drop_last()) * 10 + (s.last() as int - '0' as int)
    }
}

/// The `i64` that a string denotes in Rust's decimal integer syntax: an optional
/// `+` or `-` followed by one or more ASCII digits, in range.
pub open spec fn decimal_i64(s: Seq<char>) -> Option<i64> {
    let signed = s.len() > 0 && (s[0] == '+' || s[0] == '-');
    let start: int = if signed { 1 } else { 0 };
    let magnitude = digits_value(s.skip(start));
    let value = if signed && s[0] == '-' { -magnitude } else { magnitude };
    if s.len() > start && (forall|i: int| start <= i < s.len() ==> is_ascii_digit(#[trigger] s[i]))
        && i64::MIN <= value <= i64::MAX {
        Some(value as i64)
    } else {
        None
    }
}

/// The `Display` text of the `ParseIntError` that `str::parse::<i64>` returns
/// for `s`.
pub uninterp spec fn int_parse_error(s: Seq<char>) -> Seq<char>;

/// What `str::parse::<i64>` gives for `s`, its error by its text.
pub open spec fn parse_i64_spec(s: Seq<char>) -> Result<i64, Seq<char>> {
    match decimal_i64(s) {
        Some(n) => Ok(n),
        None => Err(int_parse_error(s)),
    }
}

/// Calls `str::parse::<i64>` and reports an error by its `Display` text.
/// Trusted: the syntax that std documents for `i64::from_str` (an optional sign
/// and at least one ASCII digit, nothing else, the value in range), and that
/// the error text is `int_parse_error(s)`.
#[verifier::external_body]
pub(crate) fn parse_i64(s: &str) -> (r: Result<i64, String>)
    ensures
        match r {
            Ok(n) => decimal_i64(s@) == Some(n),
            Err(e) => decimal_i64(s@) is None && e@ == int_parse_error(s@),
        },
{
    s.parse::<i64>().map_err(|e| e.to_string())
}

// ---------------------------------------------------------------------------
// Values
// ---------------------------------------------------------------------------

pub open spec fn integer_value_spec(v: Seq<char>, parsed: Result<i64, Seq<char>>) -> Result<ExprView, Seq<char>> {
    match parsed {
        Ok(n) => Ok(lit_v(LiteralView::Int64(n))),
        Err(e) => Err("Cannot parse '"@ + v + "' as integer: "@ + e),
    }
}

/// A day count since the epoch as a date literal: the count is read as an
/// `i32` (as with `as`) and cast to a date.
pub open spec fn date_literal_spec(days: i64) -> ExprView {
    cast_v(lit_v(LiteralView::Int32(days as i32)), CastType::Date)
}

/// A microsecond count since the epoch as a datetime literal; a count that
/// did not fit an `i64` is an error.
pub open spec fn datetime_literal_spec(micros: Option<i64>) -> Result<ExprView, Seq<char>> {
    match micros {
        Some(us) => Ok(cast_v(lit_v(LiteralView::Int64(us)), CastType::DatetimeMicros)),
        None => Err("Datetime overflow"@),
    }
}

pub open spec fn date_value_spec(v: Seq<char>, parsed: Result<CalendarDate, Seq<char>>) -> Result<ExprView, Seq<char>> {
    match parsed {
        Ok(d) => Ok(date_literal_spec(chrono_days_between(d, epoch_date()))),
        Err(e) => Err("Cannot parse '"@ + v + "' as date (expected YYYY-MM-DD): "@ + e),
    }
}

pub open spec fn datetime_value_spec(v: Seq<char>, parsed: Result<CalendarDateTime, Seq<char>>) -> Result<ExprView, Seq<char>> {
    match parsed {
        Ok(t) => datetime_literal_spec(chrono_micros_between(t, epoch_datetime())),
        Err(e) => Err("Cannot parse '"@ + v + "' as datetime (expected YYYY-MM-DDTHH:MM:SS): "@ + e),
    }
}

/// The chrono format of a date filter value: `YYYY-MM-DD`.
pub open spec fn date_format() -> Seq<char> {
    "%Y-%m-%d"@
}

/// The chrono format of a datetime filter value: `YYYY-MM-DDTHH:MM:SS`.
pub open spec fn datetime_format() -> Seq<char> {
    "%Y-%m-%dT%H:%M:%S"@
}

/// The literal a filter value `v` stands for on a column whose type is named
/// `dtype`.
pub open spec fn value_spec(v: Seq<char>, dtype: Seq<char>) -> Result<ExprView, Seq<char>> {
    if dtype == "integer"@ {
        integer_value_spec(v, parse_i64_spec(v))
    } else if dtype == "float"@ || dtype == "decimal"@ {
        Ok(lit_v(LiteralView::FloatText(v, dtype)))
    } else if dtype == "date"@ {
        date_value_spec(v, chrono_date(v, date_format()))
    } else if dtype == "datetime"@ {
        datetime_value_spec(v, chrono_datetime(v, datetime_format()))
    } else {
        Ok(lit_v(LiteralView::Utf8(v)))
    }
}

fn message3(a: &str, b: &str, c: &str, d: &str) -> (r: String)
    ensures
        r@ == a@ + b@ + c@ + d@,
{
    let mut r = String::from_str(a);
    r.append(b);
    r.append(c);
    r.append(d);
    r
}

/// The literal for the integer text `v`, given what `str::parse::<i64>` made
/// of it.
pub fn integer_value(v: &str, parsed: Result<i64, String>) -> (r: Result<Expr, String>)
    ensures
        expr_result_view(r) == integer_value_spec(v@, result_view(parsed)),
{
    match parsed {
        Ok(n) => Ok(lit(Literal::Int64(n))),
        Err(e) => Err(message3("Cannot parse '", v, "' as integer: ", e.as_str())),
    }
}

/// The date literal for `days` days since 1970-01-01.
pub fn date_literal(days: i64) -> (r: Expr)
    ensures
        r@ == date_literal_spec(days),
{
    cast(lit(Literal::Int32(days as i32)), CastType::Date)
}

/// The datetime literal for a microsecond count since 1970-01-01T00:00:00, or
/// the overflow error when there is no count.
pub fn datetime_literal(micros: Option<i64>) -> (r: Result<Expr, String>)
    ensures
        expr_result_view(r) == datetime_literal_spec(micros),
{
    match micros {
        Some(us) => Ok(cast(lit(Literal::Int64(us)), CastType::DatetimeMicros)),
        None => Err(owned("Datetime overflow")),
    }
}

/// The literal for the date text `v`, given what chrono made of it: the
/// number of days since 1970-01-01, cast to a date.
pub fn date_value(v: &str, parsed: Result<CalendarDate, String>) -> (r: Result<Expr, String>)
    requires
        parsed matches Ok(d) ==> valid_date(d),
    ensures
        expr_result_view(r) == date_value_spec(v@, result_view(parsed)),
{
    match parsed {
        Ok(d) => Ok(date_literal(days_between(d, unix_epoch_date()))),
        Err(e) => Err(message3("Cannot parse '", v, "' as date (expected YYYY-MM-DD): ", e.as_str())),
    }
}

/// The literal for the datetime text `v`, given what chrono made of it: the
/// number of microseconds since 1970-01-01T00:00:00, cast to a datetime.
pub fn datetime_value(v: &str, parsed: Result<CalendarDateTime, String>) -> (r: Result<Expr, String>)
    requires
        parsed matches Ok(t) ==> valid_datetime(t),
    ensures
        expr_result_view(r) == datetime_value_spec(v@, result_view(parsed)),
{
    match parsed {
        Ok(t) => datetime_literal(micros_between(t, unix_epoch_datetime())),
        Err(e) => Err(message3("Cannot parse '", v, "' as datetime (expected YYYY-MM-DDTHH:MM:SS): ", e.as_str())),
    }
}

/// The literal that the filter value `v` stands for on a column of type
/// `dtype`: an integer, a float (kept as text), a date, a datetime or, for
/// every other type, the string itself.
pub fn parse_value(v: &str, dtype: &str) -> (r: Result<Expr, String>)
    ensures
        expr_result_view(r) == value_spec(v@, dtype@),
{
    if str_eq(dtype, "integer") {
        integer_value(v, parse_i64(v))
    } else if str_eq(dtype, "float") || str_eq(dtype, "decimal") {
        Ok(lit(Literal::FloatText { text: owned(v), dtype: owned(dtype) }))
    } else if str_eq(dtype, "date") {
        date_value(v, chrono_parse_date(v, "%Y-%m-%d"))
    } else if str_eq(dtype, "datetime") {
        datetime_value(v, chrono_parse_datetime(v, "%Y-%m-%dT%H:%M:%S"))
    } else {
        Ok(lit(Literal::Utf8(owned(v))))
    }
}

// ---------------------------------------------------------------------------
// Filters
// ---------------------------------------------------------------------------

/// `op` applied to the column and the value `v`, read for `dtype`.
pub open spec fn compare_spec(op: BinaryOp, c: Seq<char>, v: Seq<char>, dtype: Seq<char>) -> Result<ExprView, Seq<char>> {
    match value_spec(v, dtype) {
        Ok(x) => Ok(binary_v(op, col_v(c), x)),
        Err(e) => Err(e),
    }
}

/// The predicate of one filter on a column whose type is named `dtype`.
pub open spec fn filter_expr_spec(f: FilterSpecView, dtype: Seq<char>) -> Result<ExprView, Seq<char>> {
    let c = f.column;
    if f.op == "is_null"@ {
        Ok(unary_v(UnaryOp::IsNull, col_v(c)))
    } else if f.op == "is_not_null"@ {
        Ok(unary_v(UnaryOp::IsNotNull, col_v(c)))
    } else if f.op == "is_true"@ {
        Ok(binary_v(BinaryOp::Equal, col_v(c), lit_v(LiteralView::Boolean(true))))
    } else if f.op == "is_false"@ {
        Ok(binary_v(BinaryOp::Equal, col_v(c), lit_v(LiteralView::Boolean(false))))
    } else {
        match f.value {
            None => Err("Missing filter value"@),
            Some(v) => {
                if f.op == "eq"@ {
                    compare_spec(BinaryOp::Equal, c, v, dtype)
                } else if f.op == "neq"@ {
                    compare_spec(BinaryOp::NotEqual, c, v, dtype)
                } else if f.op == "gt"@ {
                    compare_spec(BinaryOp::Greater, c, v, dtype)
                } else if f.op == "gte"@ {
                    compare_spec(BinaryOp::GreaterEqual, c, v, dtype)
                } else if f.op == "lt"@ {
                    compare_spec(BinaryOp::Less, c, v, dtype)
                } else if f.op == "lte"@ {
                    compare_spec(BinaryOp::LessEqual, c, v, dtype)
                } else if f.op == "between"@ {
                    match f.value2 {
                        None => Err("Missing second value for 'between'"@),
                        Some(v2) => match value_spec(v, dtype) {
                            Err(e) => Err(e),
                            Ok(lo) => match value_spec(v2, dtype) {
                                Err(e) => Err(e),
                                Ok(hi) => Ok(binary_v(
                                    BinaryOp::And,
                                    binary_v(BinaryOp::GreaterEqual, col_v(c), lo),
                                    binary_v(BinaryOp::LessEqual, col_v(c), hi),
                                )),
                            },
                        },
                    }
                } else if f.op == "contains"@ {
                    Ok(string_match_v(StringOp::Contains, col_v(c), lit_v(LiteralView::Utf8(v))))
                } else if f.op == "not_contains"@ {
                    Ok(unary_v(
                        UnaryOp::Not,
                        string_match_v(StringOp::Contains, col_v(c), lit_v(LiteralView::Utf8(v))),
                    ))
                } else if f.op == "starts_with"@ {
                    Ok(string_match_v(StringOp::StartsWith, col_v(c), lit_v(LiteralView::Utf8(v))))
                } else if f.op == "ends_with"@ {
                    Ok(string_match_v(StringOp::EndsWith, col_v(c), lit_v(LiteralView::Utf8(v))))
                } else {
                    Err("Unknown filter op: "@ + f.op)
                }
            },
        }
    }
}

fn compare(op: BinaryOp, c: &String, v: &str, dtype: &str) -> (r: Result<Expr, String>)
    ensures
        expr_result_view(r) == compare_spec(op, c@, v@, dtype@),
{
    match parse_value(v, dtype) {
        Ok(x) => Ok(binary(op, col(c.clone()), x)),
        Err(e) => Err(e),
    }
}

fn text_match(op: StringOp, c: &String, v: &str) -> (r: Expr)
    ensures
        r@ == string_match_v(op, col_v(c@), lit_v(LiteralView::Utf8(v@))),
{
    string_match(op, col(c.clone()), lit(Literal::Utf8(owned(v))))
}

/// The predicate for one filter on a column whose type is named `dtype`.
/// The null and boolean tests need no value; every other operation needs
/// `value`, and `between` needs `value2` as well.
pub fn build_filter_expr(spec: &FilterSpec, dtype: &str) -> (r: Result<Expr, String>)
    ensures
        expr_result_view(r) == filter_expr_spec(spec@, dtype@),
{
    let c = &spec.column;
    let op = spec.op.as_str();
    if str_eq(op, "is_null") {
        return Ok(unary(UnaryOp::IsNull, col(c.clone())));
    }
    if str_eq(op, "is_not_null") {
        return Ok(unary(UnaryOp::IsNotNull, col(c.clone())));
    }
    if str_eq(op, "is_true") {
        return Ok(binary(BinaryOp::Equal, col(c.clone()), lit(Literal::Boolean(true))));
    }
    if str_eq(op, "is_false") {
        return Ok(binary(BinaryOp::Equal, col(c.clone()), lit(Literal::Boolean(false))));
    }
    let v: &str = match &spec.value {
        Some(v) => v.as_str(),
        None => return Err(owned("Missing filter value")),
    };
    if str_eq(op, "eq") {
        compare(BinaryOp::Equal, c, v, dtype)
    } else if str_eq(op, "neq") {
        compare(BinaryOp::NotEqual, c, v, dtype)
    } else if str_eq(op, "gt") {
        compare(BinaryOp::Greater, c, v, dtype)
    } else if str_eq(op, "gte") {
        compare(BinaryOp::GreaterEqual, c, v, dtype)
    } else if str_eq(op, "lt") {
        compare(BinaryOp::Less, c, v, dtype)
    } else if str_eq(op, "lte") {
        compare(BinaryOp::LessEqual, c, v, dtype)
    } else if str_eq(op, "between") {
        let v2: &str = match &spec.value2 {
            Some(v2) => v2.as_str(),
            None => return Err(owned("Missing second value for 'between'")),
        };
        let lo = match parse_value(v, dtype) {
            Ok(x) => x,
            Err(e) => return Err(e),
        };
        let hi = match parse_value(v2, dtype) {
            Ok(x) => x,
            Err(e) => return Err(e),
        };
        Ok(binary(
            BinaryOp::And,
            binary(BinaryOp::GreaterEqual, col(c.clone()), lo),
            binary(BinaryOp::LessEqual, col(c.clone()), hi),
        ))
    } else if str_eq(op, "contains") {
        Ok(text_match(StringOp::Contains, c, v))
    } else if str_eq(op, "not_contains") {
        Ok(unary(UnaryOp::Not, text_match(StringOp::Contains, c, v)))
    } else if str_eq(op, "starts_with") {
        Ok(text_match(StringOp::StartsWith, c, v))
    } else if str_eq(op, "ends_with") {
        Ok(text_match(StringOp::EndsWith, c, v))
    } else {
        let mut msg = owned("Unknown filter op: ");
        msg.append(op);
        Err(msg)
    }
}

/// The type name of the first column of `schema` called `name`.
pub open spec fn column_dtype(schema: Seq<ColumnInfoView>, name: Seq<char>) -> Option<Seq<char>>
    decreases schema.len(),
{
    if schema.len() == 0 {
        None
    } else {
        match column_dtype(schema.drop_last(), name) {
            Some(t) => Some(t),
            None => if schema.last().name == name {
                Some(schema.last().dtype)
            } else {
                None
            },
        }
    }
}

/// The type name of the first column of `schema` called `name`, if any.
pub fn find_dtype<'a>(schema: &'a [ColumnInfo], name: &String) -> (r: Option<&'a String>)
    ensures
        opt_string_view(match r { Some(t) => Some(*t), None => None }) == column_dtype(columns_view(schema@), name@),
{
    let ghost sv = columns_view(schema@);
    let mut i: usize = 0;
    while i < schema.len()
        invariant
            i <= schema@.len(),
            sv == columns_view(schema@),
            column_dtype(sv.take(i as int), name@) is None,
        decreases schema@.len() - i,
    {
        assert(sv.take(i + 1).drop_last() =~= sv.take(i as int));
        if schema[i].name == *name {
            assert(column_dtype(sv.take(i + 1), name@) == Some(schema@[i as int].dtype@));
            proof { lemma_column_dtype_prefix(sv, name@, i as int + 1); }
            return Some(&schema[i].dtype);
        }
        i = i + 1;
    }
    assert(sv.take(i as int) =~= sv);
    None
}

/// A column found in a prefix of the schema is the one found in the whole.
proof fn lemma_column_dtype_prefix(s: Seq<ColumnInfoView>, name: Seq<char>, k: int)
    requires
        0 <= k <= s.len(),
        column_dtype(s.take(k), name) is Some,
    ensures
        column_dtype(s, name) == column_dtype(s.take(k), name),
    decreases s.len() - k,
{
    if k < s.len() {
        assert(s.take(k + 1).drop_last() =~= s.take(k));
        lemma_column_dtype_prefix(s, name, k + 1);
    } else {
        assert(s.take(k) =~= s);
    }
}

pub open spec fn opt_expr_view(e: Option<Expr>) -> Option<ExprView> {
    match e {
        Some(x) => Some(x@),
        None => None,
    }
}

/// The conjunction, left to right, of the predicates of `fs`, or `None` when
/// there are no filters; the first failing filter decides the error.
pub open spec fn combined_filter_spec(fs: Seq<FilterSpecView>, schema: Seq<ColumnInfoView>) -> Result<Option<ExprView>, Seq<char>>
    decreases fs.len(),
{
    if fs.len() == 0 {
        Ok(None)
    } else {
        match combined_filter_spec(fs.drop_last(), schema) {
            Err(e) => Err(e),
            Ok(prev) => {
                let f = fs.last();
                match column_dtype(schema, f.column) {
                    None => Err("Unknown column: "@ + f.column),
                    Some(dtype) => match filter_expr_spec(f, dtype) {
                        Err(e) => Err(e),
                        Ok(x) => Ok(Some(match prev {
                            None => x,
                            Some(p) => binary_v(BinaryOp::And, p, x),
                        })),
                    },
                }
            },
        }
    }
}

/// The filters joined with AND, in order; `None` for no filters.
pub fn combine_filters(filters: &[FilterSpec], schema: &[ColumnInfo]) -> (r: Result<Option<Expr>, String>)
    ensures
        match r {
            Ok(e) => combined_filter_spec(filters_view(filters@), columns_view(schema@)) == Ok::<Option<ExprView>, Seq<char>>(opt_expr_view(e)),
            Err(e) => combined_filter_spec(filters_view(filters@), columns_view(schema@)) == Err::<Option<ExprView>, Seq<char>>(e@),
        },
{
    let ghost fv = filters_view(filters@);
    let ghost sv = columns_view(schema@);
    let mut combined: Option<Expr> = None;
    let mut i: usize = 0;
    while i < filters.len()
        invariant
            i <= filters@.len(),
            fv == filters_view(filters@),
            sv == columns_view(schema@),
            combined_filter_spec(fv.take(i as int), sv) == Ok::<Option<ExprView>, Seq<char>>(opt_expr_view(combined)),
        decreases filters@.len() - i,
    {
        let f = &filters[i];
        assert(fv.take(i + 1).drop_last() =~= fv.take(i as int));
        assert(fv.take(i + 1).last() == f@);
        let dtype = match find_dtype(schema, &f.column) {
            Some(t) => t,
            None => {
                let mut msg = owned("Unknown column: ");
                msg.append(f.column.as_str());
                proof { lemma_combined_error_persists(fv, sv, i as int + 1, msg@); }
                return Err(msg);
            },
        };
        let x = match build_filter_expr(f, dtype.as_str()) {
            Ok(x) => x,
            Err(e) => {
                proof { lemma_combined_error_persists(fv, sv, i as int + 1, e@); }
                return Err(e);
            },
        };
        combined = Some(match combined {
            None => x,
            Some(p) => binary(BinaryOp::And, p, x),
        });
        i = i + 1;
    }
    assert(fv.take(i as int) =~= fv);
    Ok(combined)
}

/// Once a prefix of the filters fails, every longer prefix fails with the same
/// error.
proof fn lemma_combined_error_persists(fs: Seq<FilterSpecView>, schema: Seq<ColumnInfoView>, k: int, e: Seq<char>)
    requires
        0 <= k <= fs.len(),
        combined_filter_spec(fs.take(k), schema) == Err::<Option<ExprView>, Seq<char>>(e),
    ensures
        combined_filter_spec(fs, schema) == Err::<Option<ExprView>, Seq<char>>(e),
    decreases fs.len() - k,
{
    if k < fs.len() {
        assert(fs.take(k + 1).drop_last() =~= fs.take(k));
        lemma_combined_error_persists(fs, schema, k + 1, e);
    } else {
        assert(fs.take(k) =~= fs);
    }
}

} // verus!
