//! Core of a viewer for columnar data files: the sort cycle of a table's
//! column headers, the filters that describe a requested view, the decisions
//! of the load pipeline, the bridge that hands background results to the UI
//! thread, and the application state that merges them.
pub mod args;
pub mod bridge;
pub mod components;
pub mod data;
pub mod dataset;
pub mod layout;
