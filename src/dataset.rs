use vstd::prelude::*;
use vstd::string::StringExecFns;

use crate::data::{spec_query, spec_table_name, DataFilters, SortDir, SortState};

verus! {

/// Message for a path whose extension names no readable file kind.
pub const READ_OPTIONS_ERROR: &'static str =
    "Could not set read options. Does this file have a valid extension?";

/// Message for a query request whose query is empty.
pub const NO_QUERY_ERROR: &'static str = "No query provided";

/// Message for materializing a result made of no chunks.
pub const NO_BATCHES_ERROR: &'static str = "No batches to concatenate";

/// The extension of a path: what follows the last dot of its file name.
pub uninterp spec fn extension_of(path: Seq<char>) -> Option<Seq<char>>;

/// Relies on `std::path::Path::extension`: the extension of the path's file
/// name, none where the name holds no dot but a leading one.
#[verifier::external_body]
fn path_extension(path: &str) -> (r: Option<String>)
    ensures
        match r {
            Some(e) => extension_of(path@) == Some(e@),
            None => extension_of(path@) is None,
        },
        !path@.contains('.') ==> r is None,
{
    std::path::Path::new(path).extension().and_then(|e| e.to_str()).map(|e| e.to_string())
}

/// Whether `s` holds neither a `$` nor a leading `~`: shell expansion leaves
/// such a path as it is.
pub open spec fn is_plain_path(s: Seq<char>) -> bool {
    &&& !s.contains('$')
    &&& !(s.len() > 0 && s[0] == '~')
}

/// Relies on `shellexpand::full`: a leading `~` becomes the home directory and
/// `$NAME` or `${NAME}` the variable's value, the error naming a variable that
/// could not be read. Without a `$` nothing is looked up and nothing fails; a
/// path with neither comes back as it was.
#[verifier::external_body]
fn expand_path(path: &str) -> (r: Result<String, String>)
    ensures
        !path@.contains('$') ==> r is Ok,
        is_plain_path(path@) ==> (r is Ok && r->Ok_0@ == path@),
{
    shellexpand::full(path).map(|p| p.to_string()).map_err(|e| e.to_string())
}

/// Kinds of file that the viewer reads.
#[derive(Debug, Clone, Copy, PartialEq, Eq, Structural)]
pub enum FileKind {
    Parquet,
    Csv,
}

/// The file kind that an extension names, if any.
pub open spec fn spec_kind_of(ext: Option<Seq<char>>) -> Option<FileKind> {
    match ext {
        Some(e) => if e == "parquet"@ {
            Some(FileKind::Parquet)
        } else if e == "csv"@ {
            Some(FileKind::Csv)
        } else {
            None
        },
        None => None,
    }
}

impl FileKind {
    /// The file kind that an extension names: `parquet` or `csv`.
    pub fn from_extension(ext: Option<&str>) -> (r: Option<FileKind>)
        ensures
            r == spec_kind_of(match ext {
                Some(e) => Some(e@),
                None => None,
            }),
    {
        match ext {
            Some(e) => {
                let e = String::from_str(e);
                if e == String::from_str("parquet") {
                    Some(FileKind::Parquet)
                } else if e == String::from_str("csv") {
                    Some(FileKind::Csv)
                } else {
                    None
                }
            },
            None => None,
        }
    }
}

/// How to read a file, decided by its extension alone.
pub fn get_read_options(filename: &str) -> (r: Option<FileKind>)
    ensures
        r == spec_kind_of(extension_of(filename@)),
        !filename@.contains('.') ==> r is None,
{
    match path_extension(filename) {
        Some(e) => FileKind::from_extension(Some(e.as_str())),
        None => FileKind::from_extension(None),
    }
}

/// A file to read: its expanded path and its kind.
#[derive(Debug)]
pub struct LoadRequest {
    pub filename: String,
    pub kind: FileKind,
}

/// The outcome of the first step of a load, from the result of expanding the
/// path: the expansion's error, the read-options error for a path without a
/// readable kind, else the request to read the expanded path.
pub open spec fn spec_load_step(expanded: Result<Seq<char>, Seq<char>>) -> Result<
    (Seq<char>, FileKind),
    Seq<char>,
> {
    match expanded {
        Err(e) => Err(e),
        Ok(p) => match spec_kind_of(extension_of(p)) {
            Some(k) => Ok((p, k)),
            None => Err(READ_OPTIONS_ERROR@),
        },
    }
}

pub open spec fn request_view(r: Result<LoadRequest, String>) -> Result<
    (Seq<char>, FileKind),
    Seq<char>,
> {
    match r {
        Ok(q) => Ok((q.filename@, q.kind)),
        Err(e) => Err(e@),
    }
}

pub open spec fn expansion_view(r: Result<String, String>) -> Result<Seq<char>, Seq<char>> {
    match r {
        Ok(p) => Ok(p@),
        Err(e) => Err(e@),
    }
}

/// The first step of a load, from the result of expanding its path.
pub fn load_request(expanded: Result<String, String>) -> (r: Result<LoadRequest, String>)
    ensures
        request_view(r) == spec_load_step(expansion_view(expanded)),
        expanded matches Ok(p) && !p@.contains('.') ==> (r is Err && r->Err_0@
            == READ_OPTIONS_ERROR@),
{
    match expanded {
        Err(e) => Err(e),
        Ok(filename) => match get_read_options(filename.as_str()) {
            Some(kind) => Ok(LoadRequest { filename, kind }),
            None => Err(String::from_str(READ_OPTIONS_ERROR)),
        },
    }
}

/// The first step of a load: expand the path, then choose how to read it by
/// its extension. Nothing is read here; a path that needs no expansion is
/// used as it is.
pub fn prepare_load(filename: &str) -> (r: Result<LoadRequest, String>)
    ensures
        r matches Ok(q) ==> spec_kind_of(extension_of(q.filename@)) == Some(q.kind),
        is_plain_path(filename@) ==> request_view(r) == spec_load_step(Ok(filename@)),
        is_plain_path(filename@) && !filename@.contains('.') ==> (r is Err && r->Err_0@
            == READ_OPTIONS_ERROR@),
{
    load_request(expand_path(filename))
}

/// A file to register as a table before its query runs.
#[derive(Debug)]
pub struct QueryRequest {
    pub filename: String,
    pub kind: FileKind,
    pub table_name: String,
}

/// The first step of a load with a query: the load's first step, and the
/// table name that the filters give.
pub fn prepare_query(filename: &str, filters: &DataFilters) -> (r: Result<QueryRequest, String>)
    ensures
        r matches Ok(q) ==> spec_kind_of(extension_of(q.filename@)) == Some(q.kind)
            && q.table_name@ == spec_table_name(filters@),
        is_plain_path(filename@) ==> match spec_load_step(Ok(filename@)) {
            Ok((p, k)) => r matches Ok(q) && q.filename@ == p && q.kind == k
                && q.table_name@ == spec_table_name(filters@),
            Err(e) => r matches Err(m) && m@ == e,
        },
        is_plain_path(filename@) && !filename@.contains('.') ==> (r is Err && r->Err_0@
            == READ_OPTIONS_ERROR@),
{
    match prepare_load(filename) {
        Ok(req) => Ok(QueryRequest {
            filename: req.filename,
            kind: req.kind,
            table_name: filters.get_table_name(),
        }),
        Err(e) => Err(e),
    }
}

/// The query to run once the table is registered: an empty query fails,
/// after the registration, with the no-query error.
pub fn query_to_run(filters: &DataFilters) -> (r: Result<String, String>)
    ensures
        spec_query(filters@).len() == 0 <==> r is Err,
        r matches Err(e) ==> e@ == NO_QUERY_ERROR@,
        r matches Ok(q) ==> q@ == spec_query(filters@),
{
    let query = filters.get_query();
    if query.as_str().is_empty() {
        Err(String::from_str(NO_QUERY_ERROR))
    } else {
        Ok(query)
    }
}

/// A file whose extension names no readable kind fails at the first step,
/// with the read-options error, before anything is read.
pub proof fn lemma_unknown_extension_fails_first(path: Seq<char>)
    requires
        spec_kind_of(extension_of(path)) is None,
    ensures
        spec_load_step(Ok(path)) == Err::<(Seq<char>, FileKind), Seq<char>>(READ_OPTIONS_ERROR@),
{
}

/// What a `BatchShape` says: the column names and the row count.
pub struct ShapeView {
    pub columns: Seq<Seq<char>>,
    pub rows: nat,
}

/// The shape of a materialized batch: its column names in order and its
/// number of rows, the same for every column.
#[derive(Debug)]
pub struct BatchShape {
    pub columns: Vec<String>,
    pub rows: usize,
}

impl View for BatchShape {
    type V = ShapeView;

    open spec fn view(&self) -> ShapeView {
        ShapeView { columns: self.columns@.map_values(|c: String| c@), rows: self.rows as nat }
    }
}

/// Sum of the row counts of a run of chunks.
pub open spec fn total_rows(chunks: Seq<BatchShape>) -> nat
    decreases chunks.len(),
{
    if chunks.len() == 0 {
        0
    } else {
        total_rows(chunks.drop_last()) + chunks.last().rows as nat
    }
}

fn clone_columns(columns: &Vec<String>) -> (r: Vec<String>)
    ensures
        r@.map_values(|c: String| c@) == columns@.map_values(|c: String| c@),
{
    let mut out: Vec<String> = Vec::new();
    let mut i: usize = 0;
    while i < columns.len()
        invariant
            i <= columns@.len(),
            out@.len() == i,
            forall|j: int| 0 <= j < i ==> #[trigger] out@[j]@ == columns@[j]@,
        decreases columns@.len() - i,
    {
        out.push(columns[i].clone());
        i = i + 1;
    }
    assert(out@.map_values(|c: String| c@) =~= columns@.map_values(|c: String| c@));
    out
}

/// Concatenates the chunks of a result into one batch that keeps the first
/// chunk's columns: no chunks is an error, else the rows add up.
pub fn concat_record_batches(batches: &Vec<BatchShape>) -> (r: Result<BatchShape, String>)
    requires
        total_rows(batches@) <= usize::MAX,
    ensures
        batches@.len() == 0 <==> r is Err,
        r matches Err(e) ==> e@ == NO_BATCHES_ERROR@,
        r matches Ok(b) ==> b@ == (ShapeView {
            columns: batches@[0]@.columns,
            rows: total_rows(batches@),
        }),
{
    if batches.len() == 0 {
        return Err(String::from_str(NO_BATCHES_ERROR));
    }
    let mut rows: usize = 0;
    let mut i: usize = 0;
    while i < batches.len()
        invariant
            i <= batches@.len(),
            rows == total_rows(batches@.take(i as int)),
            total_rows(batches@) <= usize::MAX,
        decreases batches@.len() - i,
    {
        proof {
            assert(batches@.take(i + 1).drop_last() =~= batches@.take(i as int));
            lemma_total_rows_prefix(batches@, i + 1);
        }
        rows = rows + batches[i].rows;
        i = i + 1;
    }
    assert(batches@.take(i as int) =~= batches@);
    Ok(BatchShape { columns: clone_columns(&batches[0].columns), rows })
}

proof fn lemma_total_rows_prefix(chunks: Seq<BatchShape>, n: int)
    requires
        0 <= n <= chunks.len(),
    ensures
        total_rows(chunks.take(n)) <= total_rows(chunks),
    decreases chunks.len(),
{
    if n < chunks.len() {
        assert(chunks.drop_last().take(n) =~= chunks.take(n));
        lemma_total_rows_prefix(chunks.drop_last(), n);
    } else {
        assert(chunks.take(n) =~= chunks);
    }
}

/// Message for a sort that the query engine refused.
pub open spec fn spec_sort_error(column: Seq<char>, cause: Seq<char>) -> Seq<char> {
    "Unable to sort column '"@ + column + "': "@ + cause
}

/// A loaded view of a file: its path, the shape of its rows, the filters that
/// produced it, and `data`, the materialized rows with the query engine's
/// handle that re-sorts them without reading the file again.
#[derive(Debug)]
pub struct ParquetData<D> {
    pub filename: String,
    pub shape: BatchShape,
    pub filters: DataFilters,
    pub data: D,
}

/// What sorting a dataset asks for.
#[derive(Debug)]
pub enum SortStep<D> {
    /// Nothing to sort: the dataset as it was.
    Done(ParquetData<D>),
    /// Re-issue a sort on the dataset's engine handle by `column`, then finish
    /// with `filters`.
    Resort { dataset: ParquetData<D>, column: String, ascending: bool, filters: DataFilters },
}

impl<D> ParquetData<D> {
    /// A dataset read from a file with a plain scan: default filters.
    pub fn loaded(request: LoadRequest, shape: BatchShape, data: D) -> (r: ParquetData<D>)
        ensures
            r.filename@ == request.filename@,
            r.shape == shape,
            r.filters@ == DataFilters::default_view(),
            r.data == data,
    {
        ParquetData { filename: request.filename, shape, filters: DataFilters::default(), data }
    }

    /// A dataset produced by a query, carrying the filters that asked for it.
    pub fn queried(request: QueryRequest, filters: DataFilters, shape: BatchShape, data: D) -> (r:
        ParquetData<D>)
        ensures
            r.filename@ == request.filename@,
            r.shape == shape,
            r.filters == filters,
            r.data == data,
    {
        ParquetData { filename: request.filename, shape, filters, data }
    }

    /// Sorting by new filters: none, no sort in them, or a column not sorted
    /// leave the dataset as it is; else its engine handle is sorted again by
    /// the named column and direction, and the result carries the new filters.
    pub fn sort(self, opt_filters: Option<DataFilters>) -> (r: SortStep<D>)
        ensures
            match opt_filters {
                None => r == SortStep::Done(self),
                Some(f) => match f.sort {
                    None => r == SortStep::Done(self),
                    Some(s) => if s@.dir == SortDir::NotSorted {
                        r == SortStep::Done(self)
                    } else {
                        r matches SortStep::Resort { dataset, column, ascending, filters }
                            && dataset == self && column@ == s@.column && ascending == (s@.dir
                            == SortDir::Ascending) && filters@ == f@
                    },
                },
            },
    {
        let filters = match opt_filters {
            None => return SortStep::Done(self),
            Some(f) => f,
        };
        let (column, ascending) = match &filters.sort {
            None => return SortStep::Done(self),
            Some(SortState::NotSorted(_)) => return SortStep::Done(self),
            Some(SortState::Ascending(c)) => (c.clone(), true),
            Some(SortState::Descending(c)) => (c.clone(), false),
        };
        SortStep::Resort { dataset: self, column, ascending, filters }
    }

    /// The dataset after its re-sort: new rows and handle, the new filters.
    pub fn finish_sort(self, filters: DataFilters, shape: BatchShape, data: D) -> (r: ParquetData<
        D,
    >)
        ensures
            r.filename == self.filename,
            r.filters == filters,
            r.shape == shape,
            r.data == data,
    {
        ParquetData { filename: self.filename, shape, filters, data }
    }

    /// The number of rows.
    pub fn num_rows(&self) -> (r: usize)
        ensures
            r == self.shape.rows,
    {
        self.shape.rows
    }

    /// The number of columns.
    pub fn num_columns(&self) -> (r: usize)
        ensures
            r == self.shape.columns@.len(),
    {
        self.shape.columns.len()
    }
}

/// The message for a sort of `column` that the query engine refused with
/// `cause`.
pub fn sort_error(column: &str, cause: &str) -> (r: String)
    ensures
        r@ == spec_sort_error(column@, cause@),
{
    String::from_str("Unable to sort column '").concat(column).concat("': ").concat(cause)
}

/// Message for a table that the query engine could not register.
pub open spec fn spec_register_error(cause: Seq<char>) -> Seq<char> {
    "Failed to register parquet table: "@ + cause
}

/// The step after registering the file as a table, from the registration's
/// outcome: its failure ends the load; else the query to run, where an empty
/// one fails only now, after the registration.
pub fn registered_query(filters: &DataFilters, registered: Result<(), String>) -> (r: Result<
    String,
    String,
>)
    ensures
        registered matches Err(e) ==> (r is Err && r->Err_0@ == spec_register_error(e@)),
        registered is Ok ==> (spec_query(filters@).len() == 0 <==> r is Err),
        registered is Ok && r is Err ==> r->Err_0@ == NO_QUERY_ERROR@,
        registered is Ok && r is Ok ==> r->Ok_0@ == spec_query(filters@),
{
    match registered {
        Err(e) => Err(String::from_str("Failed to register parquet table: ").concat(e.as_str())),
        Ok(()) => query_to_run(filters),
    }
}

/// The step after a query's result was materialized: the dataset carries the
/// filters that asked for it, and is then sorted as they say.
pub fn finish_query<D>(request: QueryRequest, filters: DataFilters, shape: BatchShape, data: D) -> (r:
    SortStep<D>)
    ensures
        match filters.sort {
            Some(s) if s@.dir != SortDir::NotSorted => r matches SortStep::Resort {
                dataset,
                column,
                ascending,
                filters: f,
            } && dataset.filename@ == request.filename@ && dataset.filters@ == filters@
                && dataset.shape == shape && dataset.data == data && column@ == s@.column
                && ascending == (s@.dir == SortDir::Ascending) && f@ == filters@,
            _ => r matches SortStep::Done(d) && d.filename@ == request.filename@ && d.filters@
                == filters@ && d.shape == shape && d.data == data,
        },
{
    let kept = filters.clone();
    ParquetData::queried(request, kept, shape, data).sort(Some(filters))
}

} // verus!
