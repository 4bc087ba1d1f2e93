use vstd::prelude::*;
use vstd::string::StringExecFns;

verus! {

/// Name of the table a file is registered under when the filters give none.
pub const DEFAULT_TABLE_NAME: &'static str = "main";

/// Direction of a column's sorting state.
#[derive(Debug, Clone, Copy, PartialEq, Eq, Structural)]
pub enum SortDir {
    NotSorted,
    Ascending,
    Descending,
}

/// What a `SortState` says: a direction and the column it applies to.
pub struct SortView {
    pub dir: SortDir,
    pub column: Seq<char>,
}

/// Sorting state of one column, named by the column.
#[derive(Debug)]
pub enum SortState {
    /// The column is not sorted.
    NotSorted(String),
    /// The column is sorted in ascending order.
    Ascending(String),
    /// The column is sorted in descending order.
    Descending(String),
}

impl View for SortState {
    type V = SortView;

    open spec fn view(&self) -> SortView {
        match self {
            SortState::NotSorted(c) => SortView { dir: SortDir::NotSorted, column: c@ },
            SortState::Ascending(c) => SortView { dir: SortDir::Ascending, column: c@ },
            SortState::Descending(c) => SortView { dir: SortDir::Descending, column: c@ },
        }
    }
}

/// One activation of a column's header: an unsorted or descending column
/// becomes ascending, an ascending one descending.
pub open spec fn next_dir(d: SortDir) -> SortDir {
    match d {
        SortDir::NotSorted => SortDir::Ascending,
        SortDir::Ascending => SortDir::Descending,
        SortDir::Descending => SortDir::Ascending,
    }
}

pub open spec fn opt_sort_view(o: Option<SortState>) -> Option<SortView> {
    match o {
        Some(s) => Some(s@),
        None => None,
    }
}

pub open spec fn opt_str_view(o: Option<String>) -> Option<Seq<char>> {
    match o {
        Some(s) => Some(s@),
        None => None,
    }
}

/// Whether `sorted` sorts the column `col`, in either direction.
pub open spec fn spec_is_sorted_column(sorted: Option<SortView>, col: Seq<char>) -> bool {
    match sorted {
        Some(v) => v.dir != SortDir::NotSorted && v.column == col,
        None => false,
    }
}

/// The state that the header of column `col` shows: the current sort where it
/// sorts that column, else the column unsorted.
pub open spec fn spec_column_label(sorted: Option<SortView>, col: Seq<char>) -> SortView {
    if spec_is_sorted_column(sorted, col) {
        sorted->Some_0
    } else {
        SortView { dir: SortDir::NotSorted, column: col }
    }
}

/// The table's sort after the header of column `col` was activated.
pub open spec fn spec_activate(sorted: Option<SortView>, col: Seq<char>) -> SortView {
    let label = spec_column_label(sorted, col);
    SortView { dir: next_dir(label.dir), column: col }
}

fn clone_string_opt(o: &Option<String>) -> (r: Option<String>)
    ensures
        opt_str_view(r) == opt_str_view(*o),
{
    match o {
        Some(s) => Some(s.clone()),
        None => None,
    }
}

impl SortState {
    /// Next state of the cycle, on the same column.
    pub fn inc(&self) -> (r: SortState)
        ensures
            r@ == (SortView { dir: next_dir(self@.dir), column: self@.column }),
    {
        match self {
            SortState::NotSorted(c) => SortState::Ascending(c.clone()),
            SortState::Ascending(c) => SortState::Descending(c.clone()),
            SortState::Descending(c) => SortState::Ascending(c.clone()),
        }
    }

    /// The same column, not sorted.
    pub fn reset(&self) -> (r: SortState)
        ensures
            r@ == (SortView { dir: SortDir::NotSorted, column: self@.column }),
    {
        match self {
            SortState::NotSorted(c) => SortState::NotSorted(c.clone()),
            SortState::Ascending(c) => SortState::NotSorted(c.clone()),
            SortState::Descending(c) => SortState::NotSorted(c.clone()),
        }
    }

    /// The header text: an arrow for the direction, a space, the column name.
    pub fn format(&self) -> (r: String)
        ensures
            r@ == match self@.dir {
                SortDir::Descending => "\u{23f7} "@ + self@.column,
                SortDir::Ascending => "\u{23f6} "@ + self@.column,
                SortDir::NotSorted => "\u{2195} "@ + self@.column,
            },
    {
        match self {
            SortState::Descending(c) => String::from_str("\u{23f7} ").concat(c.as_str()),
            SortState::Ascending(c) => String::from_str("\u{23f6} ").concat(c.as_str()),
            SortState::NotSorted(c) => String::from_str("\u{2195} ").concat(c.as_str()),
        }
    }

    /// The direction of this state.
    pub fn dir(&self) -> (r: SortDir)
        ensures
            r == self@.dir,
    {
        match self {
            SortState::NotSorted(_) => SortDir::NotSorted,
            SortState::Ascending(_) => SortDir::Ascending,
            SortState::Descending(_) => SortDir::Descending,
        }
    }

    /// The column this state is about.
    pub fn column(&self) -> (r: &String)
        ensures
            r@ == self@.column,
    {
        match self {
            SortState::NotSorted(c) => c,
            SortState::Ascending(c) => c,
            SortState::Descending(c) => c,
        }
    }

    /// A state with equal direction and column.
    pub fn duplicate(&self) -> (r: SortState)
        ensures
            r@ == self@,
    {
        match self {
            SortState::NotSorted(c) => SortState::NotSorted(c.clone()),
            SortState::Ascending(c) => SortState::Ascending(c.clone()),
            SortState::Descending(c) => SortState::Descending(c.clone()),
        }
    }
}

impl Clone for SortState {
    fn clone(&self) -> (r: SortState)
        ensures
            r@ == self@,
    {
        self.duplicate()
    }
}

impl PartialEq for SortState {
    fn eq(&self, o: &SortState) -> (r: bool)
        ensures
            r == (self@ == o@),
    {
        let same_dir = match (self, o) {
            (SortState::NotSorted(_), SortState::NotSorted(_)) => true,
            (SortState::Ascending(_), SortState::Ascending(_)) => true,
            (SortState::Descending(_), SortState::Descending(_)) => true,
            _ => false,
        };
        same_dir && *self.column() == *o.column()
    }
}

impl vstd::std_specs::cmp::PartialEqSpecImpl for SortState {
    open spec fn obeys_eq_spec() -> bool {
        true
    }

    open spec fn eq_spec(&self, o: &SortState) -> bool {
        self@ == o@
    }
}

fn clone_sort_opt(o: &Option<SortState>) -> (r: Option<SortState>)
    ensures
        opt_sort_view(r) == opt_sort_view(*o),
{
    match o {
        Some(s) => Some(s.duplicate()),
        None => None,
    }
}

/// Whether the current sort sorts column `col`, in either direction.
pub fn is_sorted_column(sorted_col: &Option<SortState>, col: &str) -> (r: bool)
    ensures
        r == spec_is_sorted_column(opt_sort_view(*sorted_col), col@),
{
    match sorted_col {
        Some(sort) => match sort {
            SortState::Ascending(c) => *c == String::from_str(col),
            SortState::Descending(c) => *c == String::from_str(col),
            SortState::NotSorted(_) => false,
        },
        None => false,
    }
}

/// The state that the header of column `col` shows.
pub fn column_label(sorted_col: &Option<SortState>, col: &str) -> (r: SortState)
    ensures
        r@ == spec_column_label(opt_sort_view(*sorted_col), col@),
{
    if is_sorted_column(sorted_col, col) {
        match sorted_col {
            Some(s) => s.duplicate(),
            None => SortState::NotSorted(String::from_str(col)),
        }
    } else {
        SortState::NotSorted(String::from_str(col))
    }
}

/// Activation of a header that shows `selected_value`: the table's sort
/// becomes the next state of the cycle from the shown one. A header that
/// shows the current sort continues it; any other starts its own column over,
/// which leaves the column sorted before unsorted.
pub fn sort_button(current_value: &mut Option<SortState>, selected_value: SortState)
    ensures
        opt_sort_view(*final(current_value)) == Some(
            SortView { dir: next_dir(selected_value@.dir), column: selected_value@.column },
        ),
{
    *current_value = Some(selected_value.inc());
}

/// The table's sort after the header of column `col` was activated.
pub fn activate_column(sorted_col: &Option<SortState>, col: &str) -> (r: Option<SortState>)
    ensures
        opt_sort_view(r) == Some(spec_activate(opt_sort_view(*sorted_col), col@)),
{
    let label = column_label(sorted_col, col);
    let mut next = clone_sort_opt(sorted_col);
    sort_button(&mut next, label);
    next
}

/// Repeated activation of one column runs unsorted, ascending, descending,
/// ascending, descending, and so on; activating a column sorts it ascending
/// unless it was the sorted one, and shows every other column unsorted.
pub proof fn lemma_sort_cycle(sorted: Option<SortView>, col: Seq<char>, other: Seq<char>)
    ensures
        spec_activate(sorted, col).column == col,
        !spec_is_sorted_column(sorted, col) ==> spec_activate(sorted, col).dir
            == SortDir::Ascending,
        spec_activate(Some(spec_activate(sorted, col)), col).dir == (if spec_activate(
            sorted,
            col,
        ).dir == SortDir::Ascending {
            SortDir::Descending
        } else {
            SortDir::Ascending
        }),
        spec_activate(Some(spec_activate(sorted, col)), col).column == col,
        other != col ==> spec_column_label(Some(spec_activate(sorted, col)), other) == (SortView {
            dir: SortDir::NotSorted,
            column: other,
        }),
        spec_activate(Some(SortView { dir: SortDir::NotSorted, column: col }), col).dir
            == SortDir::Ascending,
        spec_activate(Some(SortView { dir: SortDir::Ascending, column: col }), col).dir
            == SortDir::Descending,
        spec_activate(Some(SortView { dir: SortDir::Descending, column: col }), col).dir
            == SortDir::Ascending,
{
}

/// What a `DataFilters` says.
pub struct FiltersView {
    pub table_name: Option<Seq<char>>,
    pub query: Option<Seq<char>>,
    pub sort: Option<SortView>,
}

/// Filters that describe a requested view of a file.
#[derive(Debug)]
pub struct DataFilters {
    /// Table name under which the file is registered for queries.
    pub table_name: Option<String>,
    /// SQL query to apply; none or empty means a plain scan.
    pub query: Option<String>,
    /// Sorting state.
    pub sort: Option<SortState>,
}

impl View for DataFilters {
    type V = FiltersView;

    open spec fn view(&self) -> FiltersView {
        FiltersView {
            table_name: opt_str_view(self.table_name),
            query: opt_str_view(self.query),
            sort: opt_sort_view(self.sort),
        }
    }
}

/// The table name that filters with this view register under.
pub open spec fn spec_table_name(v: FiltersView) -> Seq<char> {
    match v.table_name {
        Some(t) => t,
        None => DEFAULT_TABLE_NAME@,
    }
}

/// The query that filters with this view run; empty for none.
pub open spec fn spec_query(v: FiltersView) -> Seq<char> {
    match v.query {
        Some(q) => q,
        None => Seq::empty(),
    }
}

impl Default for DataFilters {
    fn default() -> (r: DataFilters)
        ensures
            r.table_name is None,
            r.query is None,
            r.sort is None,
    {
        DataFilters { table_name: None, query: None, sort: None }
    }
}

impl Clone for DataFilters {
    fn clone(&self) -> (r: DataFilters)
        ensures
            r@ == self@,
    {
        DataFilters {
            table_name: clone_string_opt(&self.table_name),
            query: clone_string_opt(&self.query),
            sort: clone_sort_opt(&self.sort),
        }
    }
}

impl DataFilters {
    /// The view of the default filters: nothing set.
    pub open spec fn default_view() -> FiltersView {
        FiltersView { table_name: None, query: None, sort: None }
    }

    /// The table name, or the default one where none is set.
    pub fn get_table_name(&self) -> (r: String)
        ensures
            r@ == spec_table_name(self@),
    {
        match &self.table_name {
            Some(t) => t.clone(),
            None => String::from_str(DEFAULT_TABLE_NAME),
        }
    }

    /// The query, or an empty one where none is set.
    pub fn get_query(&self) -> (r: String)
        ensures
            r@ == spec_query(self@),
    {
        match &self.query {
            Some(q) => q.clone(),
            None => String::new(),
        }
    }

    /// These filters with the sort that activating the header of column `col`
    /// gives.
    pub fn sort_by_column(&self, col: &str) -> (r: DataFilters)
        ensures
            r@ == (FiltersView {
                sort: Some(spec_activate(self@.sort, col@)),
                ..self@
            }),
    {
        DataFilters {
            table_name: clone_string_opt(&self.table_name),
            query: clone_string_opt(&self.query),
            sort: activate_column(&self.sort, col),
        }
    }
}

} // verus!
