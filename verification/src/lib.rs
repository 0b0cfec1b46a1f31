//! The decision core of a mirror-and-watch utility.
//!
//! A local directory tree is mirrored once onto a network directory, without
//! ever rewriting what the network directory already holds, and the network
//! directory is then watched for changes, each of which is logged.
//!
//! Nothing here touches the file system, the environment or a clock. Each
//! component is a deterministic machine: a driver performs the work that the
//! machine is waiting for, reports what came of it, and emits the log records
//! that the machine hands back.
//!
//! - [`pipeline`]: the whole run, an optional synchronization and then the
//!   watch, and the records that open it.
//! - [`sync`]: the Tree Synchronizer.
//! - [`watch`]: the Change Watcher.
//! - [`options`]: the merge policy of a copy pass.
//! - [`progress`]: progress samples and when they are logged.
//! - [`event`]: change events and their log lines.
//! - [`record`]: log records.
//! - [`text`]: decimal numerals.

pub mod event;
pub mod options;
pub mod pipeline;
pub mod progress;
pub mod record;
pub mod sync;
pub mod text;
pub mod watch;
