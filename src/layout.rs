use vstd::prelude::*;
use vstd::string::StringExecFns;

use tokio::sync::oneshot::Receiver;
use tokio::task::JoinHandle;

use crate::bridge::{spec_keep_unfinished, Poll, TaskBridge};
use crate::components::{Error, Popover, QueryPane, Settings};
use crate::data::{spec_query, spec_table_name, DataFilters};
use crate::dataset::ParquetData;

verus! {

/// Message shown when a background operation vanished without a result.
pub const TERMINATED_ERROR: &'static str = "Data operation terminated without response.";

/// The outcome of a load: a dataset or a message.
pub type DataResult<D> = Result<ParquetData<D>, String>;

/// The states that the application's fields add up to.
#[derive(Debug, Clone, Copy, PartialEq, Eq, Structural)]
pub enum AppState {
    /// No dataset, nothing pending.
    Empty,
    /// A load is pending; a dataset from before may be shown.
    Loading,
    /// A dataset is shown and nothing is pending.
    Ready,
    /// An error window is open.
    Error,
}

/// The application's state: the dataset shown, the query pane, the window
/// above them, and the bridge to the load in flight.
#[verifier::reject_recursive_types(D)]
pub struct ParqBenchApp<D> {
    /// The dataset shown, if any was loaded.
    pub table: Option<ParquetData<D>>,
    /// The query pane, filled from the latest dataset.
    pub query_pane: QueryPane,
    /// The window shown above the table.
    pub popover: Option<Popover>,
    /// The pending load and the tasks started.
    pub bridge: TaskBridge<DataResult<D>>,
}

/// The state that a set of fields stands for.
pub open spec fn spec_state(has_table: bool, pending: bool, error_open: bool) -> AppState {
    if error_open {
        AppState::Error
    } else if pending {
        AppState::Loading
    } else if has_table {
        AppState::Ready
    } else {
        AppState::Empty
    }
}

impl<D> ParqBenchApp<D> {
    /// Whether an error window is open.
    pub open spec fn error_open(&self) -> bool {
        self.popover matches Some(Popover::Error(_))
    }

    /// A fresh application: no dataset, an empty pane, no window, nothing
    /// pending.
    pub fn new() -> (r: ParqBenchApp<D>)
        ensures
            r.table is None,
            r.popover is None,
            r.bridge.pipe is None,
            r.bridge.tasks@.len() == 0,
            r.query_pane.filename@.len() == 0,
            r.query_pane.query@.len() == 0,
            r.query_pane.table_name@ == spec_table_name(DataFilters::default_view()),
    {
        ParqBenchApp {
            table: None,
            query_pane: QueryPane::new(None, &DataFilters::default()),
            popover: None,
            bridge: TaskBridge::new(),
        }
    }

    /// The state that the fields stand for.
    pub fn state(&self) -> (r: AppState)
        ensures
            r == spec_state(self.table is Some, self.bridge.pipe is Some, self.error_open()),
    {
        let error_open = match &self.popover {
            Some(Popover::Error(_)) => true,
            _ => false,
        };
        if error_open {
            AppState::Error
        } else if self.bridge.is_pending() {
            AppState::Loading
        } else if self.table.is_some() {
            AppState::Ready
        } else {
            AppState::Empty
        }
    }

    /// Opens the settings window.
    pub fn open_settings(&mut self)
        ensures
            final(self).popover matches Some(Popover::Settings(_)),
            final(self).table == old(self).table,
            final(self).bridge == old(self).bridge,
            final(self).query_pane == old(self).query_pane,
    {
        self.popover = Some(Popover::Settings(Settings {  }));
    }

    /// After the window was drawn: a window that the user closed goes away;
    /// nothing else changes.
    pub fn check_popover(&mut self, still_open: bool)
        ensures
            final(self).popover == if still_open {
                old(self).popover
            } else {
                None
            },
            final(self).table == old(self).table,
            final(self).bridge == old(self).bridge,
            final(self).query_pane == old(self).query_pane,
    {
        if !still_open {
            self.popover = None;
        }
    }

    /// Makes a started operation the pending one, from its result's
    /// receiver and its task's handle; an operation pending before is let go.
    pub fn track_data_future(&mut self, rx: Receiver<DataResult<D>>, handle: JoinHandle<()>)
        ensures
            final(self).bridge.pipe == Some(rx),
            final(self).table == old(self).table,
            final(self).popover == old(self).popover,
            final(self).query_pane == old(self).query_pane,
            exists|f: Seq<bool>|
                f.len() == old(self).bridge.tasks@.len() && final(self).bridge.tasks@
                    == spec_keep_unfinished(old(self).bridge.tasks@, f).push(handle),
            final(self).bridge.tasks@.len() > 0,
            final(self).bridge.tasks@.last() == handle,
            final(self).bridge.tasks@.len() <= old(self).bridge.tasks@.len() + 1,
            forall|i: int|
                0 <= i < final(self).bridge.tasks@.len() - 1 ==> old(self).bridge.tasks@.contains(
                    #[trigger] final(self).bridge.tasks@[i],
                ),
            old(self).bridge.tasks@.len() == 0 ==> final(self).bridge.tasks@ == seq![handle],
    {
        self.bridge.submit(rx, handle);
    }

    /// Merges what a poll reported and says whether a load is still pending.
    /// A dataset replaces the shown one and refills the query pane from its
    /// path and filters; a failure opens an error window and keeps the shown
    /// dataset; an operation that vanished opens the matching error window.
    pub fn apply_poll(&mut self, p: Poll<DataResult<D>>) -> (r: bool)
        ensures
            r == p is Pending,
            final(self).bridge == old(self).bridge,
            match p {
                Poll::Ready(Ok(d)) => {
                    &&& final(self).table == Some(d)
                    &&& final(self).popover == old(self).popover
                    &&& final(self).query_pane.filename@ == d.filename@
                    &&& final(self).query_pane.query@ == spec_query(d.filters@)
                    &&& final(self).query_pane.table_name@ == spec_table_name(d.filters@)
                },
                Poll::Ready(Err(m)) => {
                    &&& final(self).table == old(self).table
                    &&& final(self).query_pane == old(self).query_pane
                    &&& final(self).popover matches Some(Popover::Error(e))
                    &&& e.message == m
                },
                Poll::Terminated => {
                    &&& final(self).table == old(self).table
                    &&& final(self).query_pane == old(self).query_pane
                    &&& final(self).popover matches Some(Popover::Error(e))
                    &&& e.message@ == TERMINATED_ERROR@
                },
                _ => {
                    &&& final(self).table == old(self).table
                    &&& final(self).query_pane == old(self).query_pane
                    &&& final(self).popover == old(self).popover
                },
            },
    {
        match p {
            Poll::Ready(Ok(data)) => {
                self.query_pane = QueryPane::new(Some(data.filename.clone()), &data.filters);
                self.table = Some(data);
                false
            },
            Poll::Ready(Err(message)) => {
                self.popover = Some(Popover::Error(Error { message }));
                false
            },
            Poll::Terminated => {
                self.popover = Some(
                    Popover::Error(Error { message: String::from_str(TERMINATED_ERROR) }),
                );
                false
            },
            Poll::Pending => true,
            Poll::Idle => false,
        }
    }

    /// Polls the pending load without blocking, merges its outcome, and says
    /// whether it is still pending. A failed load never drops the shown
    /// dataset.
    pub fn check_data_pending(&mut self) -> (r: bool)
        ensures
            old(self).bridge.pipe is None ==> !r,
            r || old(self).bridge.pipe is None ==> {
                &&& final(self).bridge == old(self).bridge
                &&& final(self).table == old(self).table
                &&& final(self).popover == old(self).popover
                &&& final(self).query_pane == old(self).query_pane
            },
            !r ==> final(self).bridge.pipe is None,
            old(self).table is Some ==> final(self).table is Some,
            old(self).bridge.pipe is Some && !r ==> {
                ||| {
                    &&& final(self).error_open()
                    &&& final(self).table == old(self).table
                    &&& final(self).query_pane == old(self).query_pane
                }
                ||| {
                    &&& final(self).table matches Some(d)
                    &&& final(self).popover == old(self).popover
                    &&& final(self).query_pane.filename@ == d.filename@
                    &&& final(self).query_pane.query@ == spec_query(d.filters@)
                    &&& final(self).query_pane.table_name@ == spec_table_name(d.filters@)
                }
            },
            final(self).bridge.tasks == old(self).bridge.tasks,
    {
        let p = self.bridge.poll();
        self.apply_poll(p)
    }

    /// Whether the busy spinner replaces the table: only while the first
    /// dataset is loading; later loads keep the shown one, disabled.
    pub fn show_spinner(&self, pending: bool) -> (r: bool)
        ensures
            r == (pending && self.table is None),
    {
        pending && self.table.is_none()
    }
}

} // verus!
