//! Startup of the execution engine's gRPC server, as decisions.
//!
//! The server is a process that reads its command line, opens a layered
//! store, starts an RPC server on a socket and then blocks for good. This
//! library holds everything that process decides and almost nothing that it
//! does: it touches neither the file system nor the store nor the network. A
//! driver does that work, step by step, as the [`startup`] machine asks for
//! it. The one thing the library reads from outside is the user's home
//! directory, which [`data_dir::get_data_dir`] asks the environment for when
//! the command line names no data directory.
//!
//! - [`command_line`] defines the arguments and has clap parse them.
//! - [`config`] applies the server's rules to the parsed values.
//! - [`log_level`] picks the log level and holds the log settings.
//! - [`data_dir`] resolves the directory of the global state.
//! - [`records`] and [`properties`] build the lines to log.
//! - [`storage`] says what an empty store is seeded with.
//! - [`lifecycle`] is the order of startup and the laws that hold of it.
//! - [`startup`] is the machine a driver runs.
//! - [`socket`], [`error`] and [`text`] are what the others share.

pub mod command_line;
pub mod config;
pub mod data_dir;
pub mod error;
pub mod lifecycle;
pub mod log_level;
pub mod properties;
pub mod records;
pub mod socket;
pub mod startup;
pub mod storage;
pub mod text;
