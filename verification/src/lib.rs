//! Task runner and process manager.
//!
//! Building blocks for defining one-off commands and long running
//! processes, gating a process's start on an external dependency
//! becoming available, and supervising a pool of such processes.
//!
//! The decision logic of the supervisor lives here with full
//! contracts: the dependency wait protocol, the interrupt/kill
//! protocol of a running process, and the pool planner. The
//! surrounding runtime (spawning, sockets, signals) stays with the
//! host application, which feeds plain observations into these
//! functions and acts on the decisions they return.

pub mod cmd;
pub mod colors;
pub mod dep;
pub mod digits;
pub mod fmt;
pub mod fs;
pub mod net;
pub mod env;
pub mod loc;
pub mod process;
pub mod result;

pub use cmd::Cmd;
pub use dep::{Dependency, DependencyWaitError, WaitError};
pub use env::Env;
pub use fs::FsEntry;
pub use loc::Location;
pub use net::{HttpMethod, HttpService, TcpService};
pub use process::{ExitResult, PoolEntry, Process, ProcessPool, RunningProcess};
pub use result::Error;
