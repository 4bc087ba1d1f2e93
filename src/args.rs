use vstd::prelude::*;
use vstd::string::{StrSliceExecFns, StringExecFns};

use crate::data::{opt_str_view, DataFilters};

verus! {

/// CSV delimiter used where none is given.
pub const DEFAULT_DELIMITER: &'static str = ";";

/// Table name used for queries where none is given.
pub const DEFAULT_QUERY_TABLE: &'static str = "AllData";

/// Message for a query given without a file.
pub const QUERY_NEEDS_FILE: &'static str = "The argument '--query' requires '--filename'";

/// Message for a table name given without a query.
pub const TABLE_NEEDS_QUERY: &'static str = "The argument '--table-name' requires '--query'";

/// Message for a delimiter that is not one ASCII character.
pub const DELIMITER_NOT_ONE_CHAR: &'static str = "The delimiter must be a single ASCII character";

/// Whether `d` is one ASCII character, as a CSV delimiter must be.
pub open spec fn is_delimiter(d: Seq<char>) -> bool {
    d.len() == 1 && (d[0] as u32) < 128
}

/// Settings taken from the command line.
#[derive(Debug)]
pub struct Arguments {
    /// CSV delimiter.
    pub delimiter: String,
    /// Path of the data file.
    pub filename: Option<String>,
    /// SQL query to apply to the data.
    pub query: Option<String>,
    /// Table name for SQL queries.
    pub table_name: String,
}

impl Arguments {
    /// Settings from the flags as given, each absent where it was not given.
    /// A query needs a file, a table name needs a query, and a delimiter is
    /// one ASCII character; the delimiter and the table name fall back to
    /// their defaults.
    pub fn build(
        delimiter: Option<String>,
        filename: Option<String>,
        query: Option<String>,
        table_name: Option<String>,
    ) -> (r: Result<Arguments, String>)
        ensures
            query is Some && filename is None ==> (r is Err && r->Err_0@ == QUERY_NEEDS_FILE@),
            !(query is Some && filename is None) && table_name is Some && query is None ==> (
            r is Err && r->Err_0@ == TABLE_NEEDS_QUERY@),
            !(query is Some && filename is None) && !(table_name is Some && query is None) && (
            delimiter matches Some(d) && !is_delimiter(d@)) ==> (r is Err && r->Err_0@
                == DELIMITER_NOT_ONE_CHAR@),
            r is Ok <==> !(query is Some && filename is None) && !(table_name is Some
                && query is None) && !(delimiter matches Some(d) && !is_delimiter(d@)),
            r is Ok ==> {
                let a = r->Ok_0;
                &&& a.delimiter@ == match delimiter {
                    Some(d) => d@,
                    None => DEFAULT_DELIMITER@,
                }
                &&& is_delimiter(a.delimiter@)
                &&& opt_str_view(a.filename) == opt_str_view(filename)
                &&& opt_str_view(a.query) == opt_str_view(query)
                &&& a.table_name@ == match table_name {
                    Some(t) => t@,
                    None => DEFAULT_QUERY_TABLE@,
                }
            },
    {
        if query.is_some() && filename.is_none() {
            return Err(String::from_str(QUERY_NEEDS_FILE));
        }
        if table_name.is_some() && query.is_none() {
            return Err(String::from_str(TABLE_NEEDS_QUERY));
        }
        let delimiter = match delimiter {
            Some(d) => {
                if d.as_str().unicode_len() != 1 || d.as_str().get_char(0) as u32 >= 128 {
                    return Err(String::from_str(DELIMITER_NOT_ONE_CHAR));
                }
                d
            },
            None => {
                proof {
                    reveal_strlit(";");
                }
                String::from_str(DEFAULT_DELIMITER)
            },
        };
        let table_name = match table_name {
            Some(t) => t,
            None => String::from_str(DEFAULT_QUERY_TABLE),
        };
        Ok(Arguments { delimiter, filename, query, table_name })
    }
}

impl DataFilters {
    /// The filters that the command line asks for: its query under its table
    /// name, unsorted.
    pub fn new_with_args(args: &Arguments) -> (r: DataFilters)
        ensures
            r@.table_name == Some(args.table_name@),
            r@.query == opt_str_view(args.query),
            r.sort is None,
    {
        DataFilters {
            table_name: Some(args.table_name.clone()),
            query: match &args.query {
                Some(q) => Some(q.clone()),
                None => None,
            },
            sort: None,
        }
    }
}

} // verus!
