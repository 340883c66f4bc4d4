//! Copy backends: the local copy, which walks a source that can be read,
//! and the remote one, which is not implemented and refuses every target.

use crate::config::BackupTarget;
use crate::paths::{file_name, file_name_of, join, joined};
use crate::run::BackupError;
use crate::walk::Walker;
use vstd::prelude::*;

verus! {

/// A backend that carries out the copies of a target.
pub trait CopyOperation: Sized {
    /// The target the operation was prepared for.
    spec fn spec_target(&self) -> BackupTarget;

    /// Prepares the operation for a target; fails where the source cannot
    /// be opened, or where the backend cannot serve the target.
    fn prepare_target(target: BackupTarget, source_readable: bool) -> (r: Result<
        Self,
        BackupError,
    >)
        ensures
            r is Ok ==> source_readable && r->Ok_0.spec_target() == target,
            !source_readable ==> r is Err,
    ;

    /// The walk that lists the files to copy, with every path under the
    /// target's source; none where the backend makes no walk.
    fn file_list(&self) -> (w: Option<Walker>)
        ensures
            w is Some ==> {
                &&& w->0.wf()
                &&& w->0.spec_pending().len() == 0
                &&& w->0.spec_source_root() == self.spec_target().path@
            },
    ;
}

/// The local backend: copies from one local path to another.
pub struct LocalCopy {
    target: BackupTarget,
}

/// The remote backend. It is not implemented: it refuses every target.
pub struct RemoteCopy {
    target: BackupTarget,
}

/// The walk of the local backend.
pub open spec fn local_walk(t: BackupTarget, w: Option<Walker>) -> bool {
    &&& w is Some == file_name_of(t.path@) is Some
    &&& w is Some ==> {
        let walker = w->0;
        &&& walker.wf()
        &&& walker.spec_pending().len() == 0
        &&& walker.spec_source_root() == t.path@
        &&& walker.spec_destination_root() == joined(t.target_path@, file_name_of(t.path@).unwrap())
        &&& walker.spec_file_patterns().len() == 0
        &&& walker.spec_dir_patterns().len() == 0
        &&& !walker.spec_check_timestamps()
    }
}

impl LocalCopy {
    pub fn target(&self) -> (r: &BackupTarget)
        ensures
            *r == self.spec_target(),
    {
        &self.target
    }

    /// An operation on the target, where its source can be opened.
    pub fn prepare(target: BackupTarget, source_readable: bool) -> (r: Result<LocalCopy, BackupError>)
        ensures
            r is Ok == source_readable,
            r is Ok ==> r->Ok_0.spec_target() == target,
            r is Err ==> r->Err_0 == BackupError::SourceNotFound,
    {
        if source_readable {
            Ok(LocalCopy { target })
        } else {
            Err(BackupError::SourceNotFound)
        }
    }

    /// The walk that lists every file under the source, with no ignore
    /// lists and no timestamp check, into `target_path/<name>`; none where
    /// the source path has no final component.
    pub fn walk(&self) -> (w: Option<Walker>)
        ensures
            local_walk(self.spec_target(), w),
    {
        match file_name(self.target.path.as_str()) {
            None => None,
            Some(name) => {
                let w = Walker::new(
                    self.target.path.clone(),
                    join(self.target.target_path.as_str(), name.as_str()),
                    Vec::new(),
                    Vec::new(),
                    false,
                );
                Some(w)
            },
        }
    }
}

impl CopyOperation for LocalCopy {
    closed spec fn spec_target(&self) -> BackupTarget {
        self.target
    }

    fn prepare_target(target: BackupTarget, source_readable: bool) -> (r: Result<
        LocalCopy,
        BackupError,
    >) {
        LocalCopy::prepare(target, source_readable)
    }

    fn file_list(&self) -> (w: Option<Walker>) {
        self.walk()
    }
}

impl CopyOperation for RemoteCopy {
    closed spec fn spec_target(&self) -> BackupTarget {
        self.target
    }

    fn prepare_target(target: BackupTarget, source_readable: bool) -> (r: Result<
        RemoteCopy,
        BackupError,
    >) {
        Err(BackupError::Unsupported)
    }

    fn file_list(&self) -> (w: Option<Walker>) {
        None
    }
}

} // verus!
