use vstd::prelude::*;

use crate::data::{spec_query, spec_table_name, DataFilters};

verus! {

/// Part of a column name that asks for more decimals.
pub const HIGH_PRECISION_MARKER: &'static str = "Al\u{ed}quota";

/// Decimals shown for floating columns.
pub const FLOAT_DECIMALS: u8 = 2;

/// Decimals shown for floating columns whose name holds the marker.
pub const HIGH_PRECISION_DECIMALS: u8 = 4;

/// The settings window, which offers nothing to change yet.
#[derive(Debug)]
pub struct Settings {}

/// A window that shows an error message.
#[derive(Debug)]
pub struct Error {
    pub message: String,
}

/// The dismissible window shown above the table, if any.
#[derive(Debug)]
pub enum Popover {
    Settings(Settings),
    Error(Error),
}

/// The editable fields of the query pane.
#[derive(Debug)]
pub struct QueryPane {
    /// Path of the file to query.
    pub filename: String,
    /// Table name to register the file under.
    pub table_name: String,
    /// Query to run.
    pub query: String,
}

impl QueryPane {
    /// A pane for `filename`, empty where none, showing the filters' query
    /// and table name.
    pub fn new(filename: Option<String>, filters: &DataFilters) -> (r: QueryPane)
        ensures
            r.filename@ == match filename {
                Some(f) => f@,
                None => Seq::<char>::empty(),
            },
            r.query@ == spec_query(filters@),
            r.table_name@ == spec_table_name(filters@),
    {
        QueryPane {
            filename: match filename {
                Some(f) => f,
                None => String::new(),
            },
            query: filters.get_query(),
            table_name: filters.get_table_name(),
        }
    }

    /// What pressing Apply asks for: with a query, a load of the pane's file
    /// with its query and table name, unsorted; without one, nothing.
    pub fn apply(&self) -> (r: Option<(String, DataFilters)>)
        ensures
            self.query@.len() == 0 <==> r is None,
            r matches Some((f, filters)) ==> f@ == self.filename@ && filters@.query == Some(
                self.query@,
            ) && filters@.table_name == Some(self.table_name@) && filters.sort is None,
    {
        if self.query.as_str().is_empty() {
            None
        } else {
            Some(
                (
                    self.filename.clone(),
                    DataFilters {
                        query: Some(self.query.clone()),
                        table_name: Some(self.table_name.clone()),
                        sort: None,
                    },
                ),
            )
        }
    }
}

/// Whether `pat` occurs in `s`.
pub open spec fn spec_contains(s: Seq<char>, pat: Seq<char>) -> bool {
    exists|i: int| 0 <= i <= s.len() - pat.len() && #[trigger] s.subrange(i, i + pat.len()) == pat
}

/// Relies on `str::contains` with a string pattern: whether the pattern
/// occurs in the string.
#[verifier::external_body]
fn str_contains(s: &str, pat: &str) -> (r: bool)
    ensures
        r == spec_contains(s@, pat@),
{
    s.contains(pat)
}

/// Data kind of a column, as far as its display cares.
#[derive(Debug, Clone, Copy, PartialEq, Eq, Structural)]
pub enum ColumnType {
    Float,
    Integer,
    Other,
}

/// Horizontal placement of a cell's text.
#[derive(Debug, Clone, Copy, PartialEq, Eq, Structural)]
pub enum Align {
    Left,
    Center,
    Right,
}

/// How a column's cells are shown: the decimals of a floating value, if it is
/// one, and the placement. Stored values are never changed.
#[derive(Debug, Clone, Copy, PartialEq, Eq, Structural)]
pub struct CellFormat {
    pub decimals: Option<u8>,
    pub align: Align,
}

/// The display rule: floating columns get two decimals, right-aligned, or
/// four, centered, where the name holds the marker; integer columns are
/// centered; the rest is left-aligned.
pub open spec fn spec_cell_format(kind: ColumnType, name: Seq<char>) -> CellFormat {
    match kind {
        ColumnType::Float => if spec_contains(name, HIGH_PRECISION_MARKER@) {
            CellFormat { decimals: Some(HIGH_PRECISION_DECIMALS), align: Align::Center }
        } else {
            CellFormat { decimals: Some(FLOAT_DECIMALS), align: Align::Right }
        },
        ColumnType::Integer => CellFormat { decimals: None, align: Align::Center },
        ColumnType::Other => CellFormat { decimals: None, align: Align::Left },
    }
}

/// How the cells of column `name` of kind `kind` are shown.
pub fn cell_format(kind: ColumnType, name: &str) -> (r: CellFormat)
    ensures
        r == spec_cell_format(kind, name@),
{
    match kind {
        ColumnType::Float => if str_contains(name, HIGH_PRECISION_MARKER) {
            CellFormat { decimals: Some(HIGH_PRECISION_DECIMALS), align: Align::Center }
        } else {
            CellFormat { decimals: Some(FLOAT_DECIMALS), align: Align::Right }
        },
        ColumnType::Integer => CellFormat { decimals: None, align: Align::Center },
        ColumnType::Other => CellFormat { decimals: None, align: Align::Left },
    }
}

} // verus!
