//! Query planning and value handling for a tabular file viewer.
//!
//! The library decides what a viewer does with a Parquet or CSV file: which
//! reader a path calls for, how user filters become predicate expressions,
//! how filter values are parsed per column type, in what order the steps of a
//! query run, and how table cells become JSON. Running a query against a file
//! is left to the caller, who lowers a [`query::LazyQuery`] onto a data frame
//! engine.

pub mod text;
pub mod calendar;
pub mod expr;
pub mod schema;
pub mod filter;
pub mod query;
pub mod state;
pub mod json;
pub mod laws;
