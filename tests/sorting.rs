use parqbench::data::{activate_column, column_label, is_sorted_column, sort_button, DataFilters, SortState};

fn name(s: &SortState) -> String {
    s.column().clone()
}

#[test]
fn inc_cycles_from_not_sorted() {
    let s = SortState::NotSorted("x".to_string());
    let a = s.inc();
    assert_eq!(a, SortState::Ascending("x".to_string()));
    let d = a.inc();
    assert_eq!(d, SortState::Descending("x".to_string()));
    assert_eq!(d.inc(), SortState::Ascending("x".to_string()));
}

#[test]
fn reset_keeps_column() {
    assert_eq!(SortState::Descending("y".to_string()).reset(), SortState::NotSorted("y".to_string()));
    assert_eq!(SortState::Ascending("y".to_string()).reset(), SortState::NotSorted("y".to_string()));
    assert_eq!(SortState::NotSorted("y".to_string()).reset(), SortState::NotSorted("y".to_string()));
}

#[test]
fn format_shows_arrow_and_column() {
    assert_eq!(SortState::Descending("col".to_string()).format(), "\u{23f7} col");
    assert_eq!(SortState::Ascending("col".to_string()).format(), "\u{23f6} col");
    assert_eq!(SortState::NotSorted("col".to_string()).format(), "\u{2195} col");
}

#[test]
fn repeated_activation_of_one_column() {
    let mut sort: Option<SortState> = None;
    let mut seen = Vec::new();
    for _ in 0..5 {
        sort = activate_column(&sort, "x");
        seen.push(sort.clone().unwrap());
    }
    assert_eq!(
        seen,
        vec![
            SortState::Ascending("x".to_string()),
            SortState::Descending("x".to_string()),
            SortState::Ascending("x".to_string()),
            SortState::Descending("x".to_string()),
            SortState::Ascending("x".to_string()),
        ]
    );
}

#[test]
fn activating_another_column_resets_the_first() {
    let sort = Some(SortState::Descending("x".to_string()));
    let next = activate_column(&sort, "y");
    assert_eq!(next, Some(SortState::Ascending("y".to_string())));
    assert_eq!(column_label(&next, "x"), SortState::NotSorted("x".to_string()));
    assert_eq!(column_label(&next, "y"), SortState::Ascending("y".to_string()));
    assert_eq!(name(&next.unwrap()), "y");
}

#[test]
fn not_sorted_state_counts_as_unsorted() {
    let sort = Some(SortState::NotSorted("x".to_string()));
    assert!(!is_sorted_column(&sort, "x"));
    assert!(is_sorted_column(&Some(SortState::Ascending("x".to_string())), "x"));
    assert!(!is_sorted_column(&Some(SortState::Ascending("x".to_string())), "z"));
    assert!(!is_sorted_column(&None, "x"));
    assert_eq!(activate_column(&sort, "x"), Some(SortState::Ascending("x".to_string())));
}

#[test]
fn sort_button_takes_next_of_shown_state() {
    let mut current = Some(SortState::Ascending("a".to_string()));
    sort_button(&mut current, SortState::Ascending("a".to_string()));
    assert_eq!(current, Some(SortState::Descending("a".to_string())));
    sort_button(&mut current, SortState::NotSorted("b".to_string()));
    assert_eq!(current, Some(SortState::Ascending("b".to_string())));
}

#[test]
fn header_click_updates_only_the_sort() {
    let filters = DataFilters {
        table_name: Some("t".to_string()),
        query: Some("SELECT 1".to_string()),
        sort: None,
    };
    let next = filters.sort_by_column("price");
    assert_eq!(next.table_name, Some("t".to_string()));
    assert_eq!(next.query, Some("SELECT 1".to_string()));
    assert_eq!(next.sort, Some(SortState::Ascending("price".to_string())));
    let again = next.sort_by_column("price");
    assert_eq!(again.sort, Some(SortState::Descending("price".to_string())));
}

#[test]
fn filters_defaults() {
    let f = DataFilters::default();
    assert_eq!(f.get_table_name(), "main");
    assert_eq!(f.get_query(), "");
    let g = DataFilters { table_name: Some("AllData".to_string()), query: Some("q".to_string()), sort: None };
    assert_eq!(g.get_table_name(), "AllData");
    assert_eq!(g.get_query(), "q");
}
