# data_framer

The logic of a desktop viewer for Parquet and CSV files, verified with Verus.

`src/` is the library. It decides which reader a path calls for, turns the
user's filters into predicate expressions (reading each filter value by the
type of its column: integers, dates and datetimes counted from the Unix epoch,
strings), builds the lazy query that a page, a chart, a map layer or an export
runs (scan, filter, sort, project), keeps the session's loaded file, and turns
table cells into JSON. Every public function has a contract; `src/laws.rs`
holds the properties that relate several functions.

`app/` is the part that is not verified: it lowers the library's query plans
onto polars, reads and writes files, converts polars values to the library's
types and the library's JSON to serde_json, and exposes the viewer's commands.
Floating-point work (parsing float filter values, writing floats and decimals
as JSON numbers) happens there.

`tests/` exercises the library on concrete values.
