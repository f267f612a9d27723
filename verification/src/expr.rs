//! Predicate expressions over the columns of a table.
//!
//! An [`Expr`] is the description of a column expression that a data frame
//! engine evaluates row by row; [`ExprView`] is the same tree with strings
//! seen as character sequences, over which the contracts are written.

use vstd::prelude::*;

verus! {

/// The type a literal is cast to before it is compared with a column.
#[derive(Clone, Copy, Debug, PartialEq, Eq)]
pub enum CastType {
    /// Days since the epoch read as a calendar date.
    Date,
    /// Microseconds since the epoch read as a datetime without time zone.
    DatetimeMicros,
}

/// A constant in an expression. A 64-bit float is carried as its IEEE-754 bit
/// pattern; a float still to be read from text keeps that text and the name of
/// the column type it was read for.
#[derive(Clone, Debug, PartialEq)]
pub enum Literal {
    Boolean(bool),
    Int32(i32),
    Int64(i64),
    Float64Bits(u64),
    FloatText { text: String, dtype: String },
    Utf8(String),
}

#[derive(Clone, Copy, Debug, PartialEq, Eq)]
pub enum UnaryOp {
    Not,
    IsNull,
    IsNotNull,
}

#[derive(Clone, Copy, Debug, PartialEq, Eq)]
pub enum BinaryOp {
    Equal,
    NotEqual,
    Greater,
    GreaterEqual,
    Less,
    LessEqual,
    And,
}

/// Substring tests on a string column.
#[derive(Clone, Copy, Debug, PartialEq, Eq)]
pub enum StringOp {
    Contains,
    StartsWith,
    EndsWith,
}

#[derive(Debug, PartialEq)]
pub enum Expr {
    Column(String),
    Literal(Literal),
    Unary(UnaryOp, Box<Expr>),
    Binary(BinaryOp, Box<Expr>, Box<Expr>),
    StringMatch(StringOp, Box<Expr>, Box<Expr>),
    Cast(Box<Expr>, CastType),
}

pub enum LiteralView {
    Boolean(bool),
    Int32(i32),
    Int64(i64),
    Float64Bits(u64),
    FloatText(Seq<char>, Seq<char>),
    Utf8(Seq<char>),
}

pub enum ExprView {
    Column(Seq<char>),
    Literal(LiteralView),
    Unary(UnaryOp, Box<ExprView>),
    Binary(BinaryOp, Box<ExprView>, Box<ExprView>),
    StringMatch(StringOp, Box<ExprView>, Box<ExprView>),
    Cast(Box<ExprView>, CastType),
}

impl View for Literal {
    type V = LiteralView;

    open spec fn view(&self) -> LiteralView {
        match self {
            Literal::Boolean(b) => LiteralView::Boolean(*b),
            Literal::Int32(n) => LiteralView::Int32(*n),
            Literal::Int64(n) => LiteralView::Int64(*n),
            Literal::Float64Bits(b) => LiteralView::Float64Bits(*b),
            Literal::FloatText { text, dtype } => LiteralView::FloatText(text@, dtype@),
            Literal::Utf8(s) => LiteralView::Utf8(s@),
        }
    }
}

pub open spec fn expr_view(e: Expr) -> ExprView
    decreases e,
{
    match e {
        Expr::Column(c) => ExprView::Column(c@),
        Expr::Literal(l) => ExprView::Literal(l@),
        Expr::Unary(op, a) => ExprView::Unary(op, Box::new(expr_view(*a))),
        Expr::Binary(op, a, b) => ExprView::Binary(op, Box::new(expr_view(*a)), Box::new(expr_view(*b))),
        Expr::StringMatch(op, a, b) => ExprView::StringMatch(
            op,
            Box::new(expr_view(*a)),
            Box::new(expr_view(*b)),
        ),
        Expr::Cast(a, t) => ExprView::Cast(Box::new(expr_view(*a)), t),
    }
}

impl View for Expr {
    type V = ExprView;

    open spec fn view(&self) -> ExprView {
        expr_view(*self)
    }
}

pub open spec fn col_v(name: Seq<char>) -> ExprView {
    ExprView::Column(name)
}

pub open spec fn lit_v(l: LiteralView) -> ExprView {
    ExprView::Literal(l)
}

pub open spec fn unary_v(op: UnaryOp, a: ExprView) -> ExprView {
    ExprView::Unary(op, Box::new(a))
}

pub open spec fn binary_v(op: BinaryOp, a: ExprView, b: ExprView) -> ExprView {
    ExprView::Binary(op, Box::new(a), Box::new(b))
}

pub open spec fn string_match_v(op: StringOp, a: ExprView, b: ExprView) -> ExprView {
    ExprView::StringMatch(op, Box::new(a), Box::new(b))
}

pub open spec fn cast_v(a: ExprView, t: CastType) -> ExprView {
    ExprView::Cast(Box::new(a), t)
}

/// The column called `name`.
pub fn col(name: String) -> (r: Expr)
    ensures
        r@ == col_v(name@),
{
    Expr::Column(name)
}

/// The constant `l`.
pub fn lit(l: Literal) -> (r: Expr)
    ensures
        r@ == lit_v(l@),
{
    Expr::Literal(l)
}

pub fn unary(op: UnaryOp, a: Expr) -> (r: Expr)
    ensures
        r@ == unary_v(op, a@),
{
    Expr::Unary(op, Box::new(a))
}

pub fn binary(op: BinaryOp, a: Expr, b: Expr) -> (r: Expr)
    ensures
        r@ == binary_v(op, a@, b@),
{
    Expr::Binary(op, Box::new(a), Box::new(b))
}

pub fn string_match(op: StringOp, a: Expr, b: Expr) -> (r: Expr)
    ensures
        r@ == string_match_v(op, a@, b@),
{
    Expr::StringMatch(op, Box::new(a), Box::new(b))
}

pub fn cast(a: Expr, t: CastType) -> (r: Expr)
    ensures
        r@ == cast_v(a@, t),
{
    Expr::Cast(Box::new(a), t)
}

} // verus!
