//! Planning one run of a target: which backend, which errors come before
//! any copy, and what the walk, the snapshot directory, the retention pass
//! and the worker pool are.

use crate::config::BackupTarget;
use crate::dispatch::{worker_count, workers_for};
use crate::ignore::{ignored, is_ignored};
use crate::incremental::{check_timestamps, checks_timestamps};
use crate::paths::{copy_strings, file_name, file_name_of, join, joined, texts};
use crate::walk::{CopyJob, Walker};
use vstd::prelude::*;

verus! {

/// Why a target cannot be run.
#[derive(Clone, Copy, Debug, PartialEq, Eq, Structural)]
pub enum BackupError {
    /// The target selects a backend that is not implemented.
    Unsupported,
    /// The keep count is below one.
    InvalidKeepCount,
    /// The destination root is missing or cannot be opened.
    DestinationNotFound,
    /// The source root is missing or cannot be opened.
    SourceNotFound,
    /// The source path has no final component to name its copy by.
    NoFileName,
}

/// What the source root turned out to be.
#[derive(Clone, Copy, Debug, PartialEq, Eq, Structural)]
pub enum SourceKind {
    Missing,
    File,
    Directory,
}

/// A run of a source directory.
pub struct TreeRun {
    /// The walk of the source tree.
    pub walker: Walker,
    /// The directory that receives the tree; made before the walk.
    pub root: String,
    /// The snapshot directory's name, where the run makes a snapshot.
    pub snapshot: Option<String>,
    /// The directory whose snapshots are pruned after the walk.
    pub prune: Option<String>,
    pub keep_count: usize,
    /// The size of the worker pool; none means serial copying.
    pub workers: usize,
}

/// What a run does.
pub enum RunPlan {
    /// The source is a file that the file list excludes.
    Excluded,
    /// The source is a file: one job, decided on by the timestamp check.
    SingleFile { job: CopyJob, check_timestamps: bool },
    /// The source is a directory.
    Tree(TreeRun),
}

/// The error that stops a run before any copy, if any; checked in this order.
pub open spec fn run_error(t: BackupTarget, destination_exists: bool, source: SourceKind) -> Option<
    BackupError,
> {
    if t.additional_options is Some {
        Some(BackupError::Unsupported)
    } else if t.keep_num < 1 {
        Some(BackupError::InvalidKeepCount)
    } else if !destination_exists {
        Some(BackupError::DestinationNotFound)
    } else if source is Missing {
        Some(BackupError::SourceNotFound)
    } else if file_name_of(t.path@) is None {
        Some(BackupError::NoFileName)
    } else {
        None
    }
}

/// The thread count of the target: its own where it sets one, else the
/// global one.
pub open spec fn effective_threads(t: BackupTarget, global_threads: i32) -> int {
    match t.threads {
        Some(n) => n as int,
        None => global_threads as int,
    }
}

/// Where a directory source is copied to: `target_path/<name>`, and inside
/// that the snapshot directory where more than one copy is kept.
pub open spec fn tree_root(t: BackupTarget, name: Seq<char>, stamp: Seq<char>) -> Seq<char> {
    if t.keep_num == 1 {
        joined(t.target_path@, name)
    } else {
        joined(joined(t.target_path@, name), stamp)
    }
}

/// `r` is the plan for the target, given the global thread count, whether
/// the destination root exists, what the source root is and the snapshot
/// name of the run.
pub open spec fn planned(
    t: BackupTarget,
    global_threads: i32,
    destination_exists: bool,
    source: SourceKind,
    stamp: Seq<char>,
    r: Result<RunPlan, BackupError>,
) -> bool {
    match run_error(t, destination_exists, source) {
        Some(e) => r == Err::<RunPlan, BackupError>(e),
        None => {
            let name = file_name_of(t.path@).unwrap();
            let check = checks_timestamps(t.keep_num as int, t.always_copy);
            &&& r is Ok
            &&& if source is File {
                if ignored(t.path@, false, texts(t.ignore_files@), texts(t.ignore_folders@)) {
                    r->Ok_0 is Excluded
                } else {
                    &&& r->Ok_0 is SingleFile
                    &&& r->Ok_0->job.source@ == t.path@
                    &&& r->Ok_0->job.destination@ == joined(t.target_path@, name)
                    &&& r->Ok_0->check_timestamps == check
                }
            } else {
                &&& r->Ok_0 is Tree
                &&& {
                    let run = r->Ok_0->Tree_0;
                    &&& run.root@ == tree_root(t, name, stamp)
                    &&& run.walker.wf()
                    &&& run.walker.spec_pending().len() == 0
                    &&& run.walker.spec_source_root() == t.path@
                    &&& run.walker.spec_destination_root() == run.root@
                    &&& run.walker.spec_file_patterns() == texts(t.ignore_files@)
                    &&& run.walker.spec_dir_patterns() == texts(t.ignore_folders@)
                    &&& run.walker.spec_check_timestamps() == check
                    &&& run.keep_count == t.keep_num
                    &&& run.workers == workers_for(effective_threads(t, global_threads))
                    &&& if t.keep_num > 1 {
                        &&& run.snapshot is Some
                        &&& run.snapshot->0@ == stamp
                        &&& run.prune is Some
                        &&& run.prune->0@ == joined(t.target_path@, name)
                    } else {
                        run.snapshot is None && run.prune is None
                    }
                }
            }
        },
    }
}

/// Relies on chrono's `Utc::now` and `DateTime::format` with the pattern
/// `%Y-%m-%d %H:%M:%S`: the current UTC time, written so that text order is
/// time order. It depends on the clock, so nothing is promised of it.
#[verifier::external_body]
fn snapshot_stamp() -> String {
    chrono::Utc::now().format("%Y-%m-%d %H:%M:%S").to_string()
}

impl BackupTarget {
    /// Plans a run of the target with `stamp` as the name of its snapshot
    /// directory. The remote backend is refused, then a keep count below
    /// one, a missing destination root, a missing source root and a source
    /// path without a final component, in that order. A source file gives
    /// one job into the destination root (or nothing, where the file list
    /// excludes it). A source directory gives a walk into
    /// `target_path/<name>`, or into the snapshot directory inside it when
    /// more than one copy is kept, with a retention pass over
    /// `target_path/<name>` afterwards.
    pub fn plan_run(
        &self,
        global_threads: i32,
        destination_exists: bool,
        source: SourceKind,
        stamp: &str,
    ) -> (r: Result<RunPlan, BackupError>)
        ensures
            planned(*self, global_threads, destination_exists, source, stamp@, r),
    {
        if self.additional_options.is_some() {
            return Err(BackupError::Unsupported);
        }
        if self.keep_num < 1 {
            return Err(BackupError::InvalidKeepCount);
        }
        if !destination_exists {
            return Err(BackupError::DestinationNotFound);
        }
        if source == SourceKind::Missing {
            return Err(BackupError::SourceNotFound);
        }
        let name = match file_name(self.path.as_str()) {
            Some(n) => n,
            None => {
                return Err(BackupError::NoFileName);
            },
        };
        let check = check_timestamps(self.keep_num, self.always_copy);
        if source == SourceKind::File {
            if is_ignored(self.path.as_str(), false, &self.ignore_files, &self.ignore_folders) {
                return Ok(RunPlan::Excluded);
            }
            let job = CopyJob {
                source: self.path.clone(),
                destination: join(self.target_path.as_str(), name.as_str()),
            };
            return Ok(RunPlan::SingleFile { job, check_timestamps: check });
        }
        let base = join(self.target_path.as_str(), name.as_str());
        let (root, snapshot, prune) = if self.keep_num == 1 {
            (base, None, None)
        } else {
            let root = join(base.as_str(), stamp);
            (root, Some(stamp.to_owned()), Some(base))
        };
        let threads = match self.threads {
            Some(n) => n,
            None => global_threads,
        };
        let walker = Walker::new(
            self.path.clone(),
            root.clone(),
            copy_strings(&self.ignore_files),
            copy_strings(&self.ignore_folders),
            check,
        );
        Ok(
            RunPlan::Tree(
                TreeRun {
                    walker,
                    root,
                    snapshot,
                    prune,
                    keep_count: self.keep_num as usize,
                    workers: worker_count(threads),
                },
            ),
        )
    }

    /// Starts a backup of the target: as `plan_run`, with the current time
    /// naming the snapshot directory where one is made.
    pub fn backup(&self, global_threads: i32, destination_exists: bool, source: SourceKind) -> (r:
        Result<RunPlan, BackupError>)
        ensures
            exists|stamp: Seq<char>|
                #[trigger] planned(*self, global_threads, destination_exists, source, stamp, r),
    {
        let stamp = if self.keep_num > 1 {
            snapshot_stamp()
        } else {
            String::new()
        };
        let r = self.plan_run(global_threads, destination_exists, source, stamp.as_str());
        assert(planned(*self, global_threads, destination_exists, source, stamp@, r));
        r
    }
}

} // verus!
