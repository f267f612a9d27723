use data_framer::calendar::{CalendarDate, CalendarDateTime};
use data_framer::expr::{cast, lit, CastType, Expr, Literal};
use data_framer::filter::{date_literal, date_value, datetime_literal, datetime_value};

fn date(year: i32, month: u32, day: u32) -> CalendarDate {
    CalendarDate { year, month, day }
}

fn at(d: CalendarDate, hour: u32, minute: u32, second: u32, nanosecond: u32) -> CalendarDateTime {
    CalendarDateTime { date: d, hour, minute, second, nanosecond }
}

fn day_lit(n: i32) -> Expr {
    cast(lit(Literal::Int32(n)), CastType::Date)
}

fn micros_lit(n: i64) -> Expr {
    cast(lit(Literal::Int64(n)), CastType::DatetimeMicros)
}

fn days(d: CalendarDate) -> i32 {
    match date_value("", Ok(d)).unwrap() {
        Expr::Cast(inner, CastType::Date) => match *inner {
            Expr::Literal(Literal::Int32(n)) => n,
            other => panic!("not a day count: {:?}", other),
        },
        other => panic!("not a date: {:?}", other),
    }
}

#[test]
fn epoch_is_day_zero() {
    assert_eq!(days(date(1970, 1, 1)), 0);
}

#[test]
fn known_day_counts() {
    assert_eq!(days(date(2024, 1, 15)), 19737);
    assert_eq!(days(date(1969, 12, 31)), -1);
    assert_eq!(days(date(2000, 3, 1)), 11017);
    assert_eq!(days(date(1900, 3, 1)), -25508);
    assert_eq!(days(date(1600, 2, 29)), -135081);
    assert_eq!(days(date(1, 1, 1)), -719162);
    assert_eq!(days(date(0, 2, 29)), -719469);
    assert_eq!(days(date(-1, 12, 31)), -719529);
    assert_eq!(days(date(9999, 12, 31)), 2932896);
}

#[test]
fn range_ends_of_chrono_dates() {
    assert_eq!(days(date(-262143, 1, 1)), -96465292);
    assert_eq!(days(date(262142, 12, 31)), 95026236);
}

#[test]
fn next_date_is_next_day() {
    assert_eq!(days(date(2023, 12, 31)) + 1, days(date(2024, 1, 1)));
    assert_eq!(days(date(2024, 2, 28)) + 1, days(date(2024, 2, 29)));
    assert_eq!(days(date(2024, 2, 29)) + 1, days(date(2024, 3, 1)));
    assert_eq!(days(date(2100, 2, 28)) + 1, days(date(2100, 3, 1)));
}

#[test]
fn date_literals_take_the_day_count() {
    assert_eq!(date_literal(19737), day_lit(19737));
    assert_eq!(date_literal(-1), day_lit(-1));
    assert_eq!(date_literal((1i64 << 32) + 3), day_lit(3));
}

#[test]
fn datetime_literals_take_the_microsecond_count() {
    assert_eq!(datetime_literal(Some(5)).unwrap(), micros_lit(5));
    assert_eq!(datetime_literal(None).unwrap_err(), "Datetime overflow");
}

#[test]
fn microseconds_since_epoch() {
    let us = |t| datetime_value("", Ok(t)).unwrap();
    assert_eq!(us(at(date(1970, 1, 1), 0, 0, 1, 0)), micros_lit(1_000_000));
    assert_eq!(us(at(date(2024, 1, 15), 12, 30, 45, 0)), micros_lit(1_705_321_845_000_000));
    assert_eq!(us(at(date(1969, 12, 31), 23, 59, 59, 0)), micros_lit(-1_000_000));
    assert_eq!(us(at(date(1970, 1, 1), 0, 0, 0, 1_500)), micros_lit(1));
    assert_eq!(us(at(date(1969, 12, 31), 23, 59, 59, 999_999_999)), micros_lit(0));
    assert_eq!(us(at(date(1969, 12, 31), 23, 59, 59, 1_000_000_000)), micros_lit(0));
}
