//! Running a process as a service of the Windows service control manager: the dispatch table
//! and argument copying of the entry point, the requests of a session with the manager's
//! database, handles that are released exactly once, and an in-memory database that answers
//! those requests.

pub mod database;
pub mod error;
pub mod sc_handle;
pub mod service;
pub mod service_dispatcher;
pub mod service_manager;
pub mod wide;

pub use error::{Error, Result};
