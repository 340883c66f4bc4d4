//! Backup engine: decides what to copy from a source tree into a destination,
//! which snapshot directories to keep, and how copy work is handed to a pool
//! of workers. Filesystem access and threads live with the caller; every
//! decision they act on is made here.

pub mod config;
pub mod dispatch;
pub mod ignore;
pub mod incremental;
pub mod local_copy;
pub mod paths;
pub mod retention;
pub mod run;
pub mod walk;

pub use config::{Additional, BackupTarget, Config, SharedOptions};
pub use dispatch::{checked_sum, Command, Dispatcher, WorkerAction, WorkerTally};
pub use ignore::is_ignored;
pub use incremental::{should_copy, FileTime};
pub use local_copy::{CopyOperation, LocalCopy, RemoteCopy};
pub use retention::prune_plan;
pub use run::{BackupError, RunPlan, SourceKind, TreeRun};
pub use walk::{CopyJob, DirFrame, EntryInfo, Visit, Walker};
