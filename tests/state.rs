use parqbench::bridge::{keep_unfinished, Poll, TaskBridge};
use parqbench::components::{cell_format, Align, CellFormat, ColumnType, Popover, QueryPane};
use parqbench::data::DataFilters;
use parqbench::dataset::{BatchShape, LoadRequest, FileKind, ParquetData};
use parqbench::layout::{AppState, DataResult, ParqBenchApp, TERMINATED_ERROR};
use tokio::sync::oneshot;

fn runtime() -> tokio::runtime::Runtime {
    tokio::runtime::Builder::new_multi_thread().worker_threads(1).build().unwrap()
}

fn data(name: &str, rows: usize) -> ParquetData<u8> {
    let req = LoadRequest { filename: name.to_string(), kind: FileKind::Parquet };
    ParquetData::loaded(req, BatchShape { columns: vec!["a".to_string()], rows }, 1)
}

#[test]
fn idle_bridge_reports_idle() {
    let mut b: TaskBridge<u32> = TaskBridge::new();
    assert!(!b.is_pending());
    assert!(matches!(b.poll(), Poll::Idle));
}

#[test]
fn later_submission_wins_the_slot() {
    let rt = runtime();
    let mut b: TaskBridge<u32> = TaskBridge::new();
    let (tx_a, rx_a) = oneshot::channel::<u32>();
    let (tx_b, rx_b) = oneshot::channel::<u32>();
    b.submit(rx_a, rt.spawn(async {}));
    b.submit(rx_b, rt.spawn(async {}));
    // The first receiver was let go, so its sender sees the channel closed.
    assert!(tx_a.send(1).is_err());
    assert!(matches!(b.poll(), Poll::Pending));
    assert!(b.is_pending());
    tx_b.send(2).unwrap();
    match b.poll() {
        Poll::Ready(v) => assert_eq!(v, 2),
        _ => panic!("expected the second result"),
    }
    assert!(matches!(b.poll(), Poll::Idle));
}

#[test]
fn dropped_sender_reports_terminated() {
    let rt = runtime();
    let mut b: TaskBridge<u32> = TaskBridge::new();
    let (tx, rx) = oneshot::channel::<u32>();
    b.submit(rx, rt.spawn(async {}));
    drop(tx);
    assert!(matches!(b.poll(), Poll::Terminated));
    assert!(!b.is_pending());
}

#[test]
fn finished_tasks_are_pruned() {
    let rt = runtime();
    let mut b: TaskBridge<u32> = TaskBridge::new();
    let (_tx, rx) = oneshot::channel::<u32>();
    let h = rt.spawn(async {});
    while !h.is_finished() {
        std::hint::spin_loop();
    }
    b.submit(rx, h);
    assert_eq!(b.tasks.len(), 1);
    b.prune_finished();
    assert_eq!(b.tasks.len(), 0);
    assert!(b.is_pending());
}

#[test]
fn app_merges_success_and_keeps_data_on_failure() {
    let rt = runtime();
    let mut app: ParqBenchApp<u8> = ParqBenchApp::new();
    assert_eq!(app.state(), AppState::Empty);
    let (tx, rx) = oneshot::channel::<DataResult<u8>>();
    app.track_data_future(rx, rt.spawn(async {}));
    assert_eq!(app.state(), AppState::Loading);
    assert!(app.show_spinner(true));
    assert!(app.check_data_pending());
    tx.send(Ok(data("/d/first.parquet", 5))).unwrap();
    assert!(!app.check_data_pending());
    assert_eq!(app.state(), AppState::Ready);
    assert_eq!(app.query_pane.filename, "/d/first.parquet");
    assert_eq!(app.query_pane.table_name, "main");
    assert!(!app.show_spinner(true));

    let (tx, rx) = oneshot::channel::<DataResult<u8>>();
    app.track_data_future(rx, rt.spawn(async {}));
    tx.send(Err("boom".to_string())).unwrap();
    assert!(!app.check_data_pending());
    assert_eq!(app.state(), AppState::Error);
    match &app.popover {
        Some(Popover::Error(e)) => assert_eq!(e.message, "boom"),
        _ => panic!("expected an error window"),
    }
    assert_eq!(app.table.as_ref().unwrap().filename, "/d/first.parquet");
    app.check_popover(true);
    assert_eq!(app.state(), AppState::Error);
    app.check_popover(false);
    assert_eq!(app.state(), AppState::Ready);
}

#[test]
fn app_reports_vanished_operation() {
    let rt = runtime();
    let mut app: ParqBenchApp<u8> = ParqBenchApp::new();
    let (tx, rx) = oneshot::channel::<DataResult<u8>>();
    app.track_data_future(rx, rt.spawn(async {}));
    drop(tx);
    assert!(!app.check_data_pending());
    match &app.popover {
        Some(Popover::Error(e)) => assert_eq!(e.message, TERMINATED_ERROR),
        _ => panic!("expected an error window"),
    }
    assert!(app.table.is_none());
    app.check_popover(false);
    assert_eq!(app.state(), AppState::Empty);
}

#[test]
fn app_sees_only_latest_load() {
    let rt = runtime();
    let mut app: ParqBenchApp<u8> = ParqBenchApp::new();
    let (tx_a, rx_a) = oneshot::channel::<DataResult<u8>>();
    app.track_data_future(rx_a, rt.spawn(async {}));
    let (tx_b, rx_b) = oneshot::channel::<DataResult<u8>>();
    app.track_data_future(rx_b, rt.spawn(async {}));
    assert!(tx_a.send(Ok(data("/d/a.parquet", 1))).is_err());
    tx_b.send(Ok(data("/d/b.parquet", 2))).unwrap();
    assert!(!app.check_data_pending());
    assert_eq!(app.table.as_ref().unwrap().filename, "/d/b.parquet");
}

#[test]
fn settings_window_opens_and_closes() {
    let mut app: ParqBenchApp<u8> = ParqBenchApp::new();
    app.open_settings();
    assert!(matches!(app.popover, Some(Popover::Settings(_))));
    assert_eq!(app.state(), AppState::Empty);
    app.check_popover(false);
    assert!(app.popover.is_none());
}

#[test]
fn query_pane_apply() {
    let pane = QueryPane::new(Some("/d/f.parquet".to_string()), &DataFilters::default());
    assert_eq!(pane.query, "");
    assert_eq!(pane.table_name, "main");
    assert!(pane.apply().is_none());
    let pane = QueryPane { query: "SELECT 1".to_string(), ..pane };
    let (file, filters) = pane.apply().unwrap();
    assert_eq!(file, "/d/f.parquet");
    assert_eq!(filters.query, Some("SELECT 1".to_string()));
    assert_eq!(filters.table_name, Some("main".to_string()));
    assert!(filters.sort.is_none());
    let empty = QueryPane::new(None, &DataFilters::default());
    assert_eq!(empty.filename, "");
}

#[test]
fn cell_formats() {
    assert_eq!(cell_format(ColumnType::Float, "price"), CellFormat { decimals: Some(2), align: Align::Right });
    assert_eq!(cell_format(ColumnType::Float, "Al\u{ed}quota ICMS"), CellFormat { decimals: Some(4), align: Align::Center });
    assert_eq!(cell_format(ColumnType::Integer, "Al\u{ed}quota"), CellFormat { decimals: None, align: Align::Center });
    assert_eq!(cell_format(ColumnType::Other, "name"), CellFormat { decimals: None, align: Align::Left });
}

#[test]
fn keep_unfinished_keeps_order() {
    let kept = keep_unfinished(vec![1, 2, 3, 4, 5], &vec![false, true, false, true, false]);
    assert_eq!(kept, vec![1, 3, 5]);
    assert_eq!(keep_unfinished(Vec::<u8>::new(), &vec![]), Vec::<u8>::new());
    assert_eq!(keep_unfinished(vec![7, 8], &vec![true, true]), Vec::<u8>::new());
}

#[test]
fn pruning_keeps_running_tasks_in_order() {
    let rt = runtime();
    let mut b: TaskBridge<u32> = TaskBridge::new();
    let (stop_a, wait_a) = oneshot::channel::<()>();
    let (stop_b, wait_b) = oneshot::channel::<()>();
    let a = rt.spawn(async move {
        let _ = wait_a.await;
    });
    let done = rt.spawn(async {});
    while !done.is_finished() {
        std::hint::spin_loop();
    }
    let c = rt.spawn(async move {
        let _ = wait_b.await;
    });
    b.tasks = vec![a, done, c];
    b.prune_finished();
    assert_eq!(b.tasks.len(), 2);
    stop_a.send(()).unwrap();
    while !b.tasks[0].is_finished() {
        std::hint::spin_loop();
    }
    assert!(!b.tasks[1].is_finished());
    stop_b.send(()).unwrap();
}

#[test]
fn first_submission_holds_one_task() {
    let rt = runtime();
    let mut app: ParqBenchApp<u8> = ParqBenchApp::new();
    let (_tx, rx) = oneshot::channel::<DataResult<u8>>();
    app.track_data_future(rx, rt.spawn(async {}));
    assert_eq!(app.bridge.tasks.len(), 1);
    assert!(app.show_spinner(app.bridge.is_pending()));
}

#[test]
fn idle_poll_changes_nothing() {
    let mut app: ParqBenchApp<u8> = ParqBenchApp::new();
    app.query_pane.query = "SELECT 2".to_string();
    assert!(!app.check_data_pending());
    assert_eq!(app.query_pane.query, "SELECT 2");
    assert!(app.popover.is_none());
    assert!(app.table.is_none());
}
