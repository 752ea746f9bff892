//! Task-context synchronisation for a development environment.
//!
//! A sync hands the user over to the browser and waits on a local listener
//! for the callback that names the account, product, board and task at hand.
//! The context that comes back is kept in a store, and searches that do not
//! say otherwise are narrowed to it.
//!
//! The library decides and the caller acts: sockets, clocks and threads are
//! the caller's, and every step that depends on them is a state machine here
//! ([`listener`], [`orchestrator`]). Two outside crates are called, `url` to
//! take a request's query apart ([`callback`]) and `serde_json` to build the
//! filter object ([`ide_context`]); what is believed of them is said where
//! they are called.

pub mod callback;
pub mod configuration;
pub mod error;
pub mod extension;
pub mod file_search;
pub mod handoff;
pub mod ide_context;
pub mod listener;
pub mod numeral;
pub mod orchestrator;
pub mod report;
pub mod search_filter;
pub mod sync_data;

pub use configuration::AgentConfiguration;
pub use file_search::FileSearchToolInput;
pub use ide_context::IdeContext;
pub use search_filter::SearchFilter;
pub use sync_data::{TaskSyncData, TaskSyncView};
