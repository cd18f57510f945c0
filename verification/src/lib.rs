//! The core of a file executor.
//!
//! A caller uploads a file and gets a handle for it. Later the caller asks
//! for the file to be run: an external process is started with the stored
//! file as its argument, the lines it writes are passed on one by one, and
//! when the run is over, however it went, what was stored for the handle is
//! removed. A handle can be run once.
//!
//! This crate holds what is decided on the way, and proves it:
//!
//! - [`paths`]: where an upload is stored;
//! - [`registry`]: which stored path belongs to which handle, with a lookup
//!   that removes what it finds;
//! - [`attempt`]: one run as a state machine, from the start of the process
//!   to the removal of the handle's directory;
//! - [`service`]: the uploads root and the registry together, as callers
//!   use them;
//! - [`scripted`]: a run against a script in place of a process, a sink and
//!   a disk;
//! - [`trace`]: what holds of attempts over whole sequences of reports;
//! - [`error`]: the failures.
//!
//! Nothing here starts a process, reads a pipe or touches a disk. An
//! [`Attempt`] says what is to be done next, its driver does it and reports
//! back, and the attempt decides again.

pub mod attempt;
pub mod error;
pub mod paths;
pub mod registry;
pub mod scripted;
pub mod service;
pub mod trace;

pub use attempt::{Attempt, Phase, RunAction, RunEvent};
pub use error::ServiceError;
pub use registry::Registry;
pub use scripted::{Report, Script};
pub use service::{ExecParams, ProdServices};
