//! The traversal of a source tree, as a state machine.
//!
//! The walker holds an explicit work-list of entries still to visit, so a
//! deep tree never deepens the call stack. The caller lists directories and
//! stats files; the walker decides what each entry becomes: skipped by the
//! ignore lists, a directory to create and list, or a file to consider for
//! copying. Every path it hands out lies under the roots it was made with.

use crate::ignore::{ignored, is_ignored, is_regex_entry, lemma_plain_entry_excludes};
use crate::incremental::FileTime;
use crate::paths::{file_name_of, join, joined, texts};
use vstd::prelude::*;

verus! {

/// One file to copy: where it is read and where it is written.
#[derive(Clone, Debug)]
pub struct CopyJob {
    pub source: String,
    pub destination: String,
}

/// What a directory listing reports of one of its entries.
#[derive(Clone, Debug)]
pub struct EntryInfo {
    pub name: String,
    pub is_dir: bool,
    pub modified: FileTime,
}

/// A directory reached by the walk: where it is read, its path relative to
/// the source root, and where its copy goes.
#[derive(Debug)]
pub struct DirFrame {
    source: String,
    relative: String,
    destination: String,
    is_root: bool,
}

/// An entry waiting on the work-list.
#[derive(Debug)]
pub struct PendingEntry {
    pub relative: String,
    pub source: String,
    pub destination: String,
    pub is_dir: bool,
    pub modified: FileTime,
}

/// What the walker made of the entry it took.
#[derive(Debug)]
pub enum Visit {
    /// An ignore list excludes the entry: nothing is written for it, and a
    /// directory is not descended into.
    Skipped,
    /// A directory to create at its destination and then list.
    Directory(DirFrame),
    /// A file that the timestamp check decides on next.
    File { job: CopyJob, modified: FileTime },
}

pub struct Walker {
    source_root: String,
    destination_root: String,
    file_patterns: Vec<String>,
    dir_patterns: Vec<String>,
    check_timestamps: bool,
    pending: Vec<PendingEntry>,
}

impl DirFrame {
    pub closed spec fn spec_source(&self) -> Seq<char> {
        self.source@
    }

    /// The frame of the source root itself.
    pub closed spec fn spec_is_root(&self) -> bool {
        self.is_root
    }

    pub closed spec fn spec_relative(&self) -> Seq<char> {
        self.relative@
    }

    pub closed spec fn spec_destination(&self) -> Seq<char> {
        self.destination@
    }

    pub fn source(&self) -> (r: &String)
        ensures
            r@ == self.spec_source(),
    {
        &self.source
    }

    pub fn relative(&self) -> (r: &String)
        ensures
            r@ == self.spec_relative(),
    {
        &self.relative
    }

    pub fn destination(&self) -> (r: &String)
        ensures
            r@ == self.spec_destination(),
    {
        &self.destination
    }
}

/// What the walker owes for a pending entry, given the ignore lists.
pub open spec fn visit_of(
    v: Visit,
    p: PendingEntry,
    file_entries: Seq<Seq<char>>,
    dir_entries: Seq<Seq<char>>,
) -> bool {
    if ignored(p.relative@, p.is_dir, file_entries, dir_entries) {
        v is Skipped
    } else if p.is_dir {
        &&& v is Directory
        &&& v->Directory_0.spec_source() == p.source@
        &&& v->Directory_0.spec_relative() == p.relative@
        &&& v->Directory_0.spec_destination() == p.destination@
        &&& !v->Directory_0.spec_is_root()
    } else {
        &&& v is File
        &&& v->job.source@ == p.source@
        &&& v->job.destination@ == p.destination@
        &&& v->modified == p.modified
    }
}

impl Walker {
    pub closed spec fn spec_source_root(&self) -> Seq<char> {
        self.source_root@
    }

    pub closed spec fn spec_destination_root(&self) -> Seq<char> {
        self.destination_root@
    }

    pub closed spec fn spec_file_patterns(&self) -> Seq<Seq<char>> {
        texts(self.file_patterns@)
    }

    pub closed spec fn spec_dir_patterns(&self) -> Seq<Seq<char>> {
        texts(self.dir_patterns@)
    }

    pub closed spec fn spec_check_timestamps(&self) -> bool {
        self.check_timestamps
    }

    /// The work-list; the entry taken next is the last.
    pub closed spec fn spec_pending(&self) -> Seq<PendingEntry> {
        self.pending@
    }

    /// The entry lies at `relative` under both roots.
    pub open spec fn placed(&self, p: PendingEntry) -> bool {
        &&& p.source@ == joined(self.spec_source_root(), p.relative@)
        &&& p.destination@ == joined(self.spec_destination_root(), p.relative@)
    }

    /// Every pending entry lies under both roots.
    pub open spec fn wf(&self) -> bool {
        forall|i: int| 0 <= i < self.spec_pending().len() ==> self.placed(#[trigger] self.spec_pending()[i])
    }

    /// The frame is a root frame or lies at its relative path under both roots.
    pub open spec fn frame_ok(&self, f: DirFrame) -> bool {
        ||| (f.spec_is_root() && f.spec_relative().len() == 0 && f.spec_source()
            == self.spec_source_root() && f.spec_destination() == self.spec_destination_root())
        ||| (!f.spec_is_root() && f.spec_source() == joined(
            self.spec_source_root(),
            f.spec_relative(),
        ) && f.spec_destination() == joined(self.spec_destination_root(), f.spec_relative()))
    }

    /// The relative path of a child of the frame.
    pub open spec fn child_relative(f: DirFrame, name: Seq<char>) -> Seq<char> {
        if f.spec_is_root() {
            name
        } else {
            joined(f.spec_relative(), name)
        }
    }

    /// The same walk settings.
    pub open spec fn same_settings(&self, other: &Walker) -> bool {
        &&& self.spec_source_root() == other.spec_source_root()
        &&& self.spec_destination_root() == other.spec_destination_root()
        &&& self.spec_file_patterns() == other.spec_file_patterns()
        &&& self.spec_dir_patterns() == other.spec_dir_patterns()
        &&& self.spec_check_timestamps() == other.spec_check_timestamps()
    }

    /// A walker over `source_root` whose copies go under `destination_root`,
    /// with nothing pending yet.
    pub fn new(
        source_root: String,
        destination_root: String,
        file_patterns: Vec<String>,
        dir_patterns: Vec<String>,
        check_timestamps: bool,
    ) -> (w: Walker)
        ensures
            w.wf(),
            w.spec_source_root() == source_root@,
            w.spec_destination_root() == destination_root@,
            w.spec_file_patterns() == texts(file_patterns@),
            w.spec_dir_patterns() == texts(dir_patterns@),
            w.spec_check_timestamps() == check_timestamps,
            w.spec_pending().len() == 0,
    {
        Walker {
            source_root,
            destination_root,
            file_patterns,
            dir_patterns,
            check_timestamps,
            pending: Vec::new(),
        }
    }

    /// The frame of the source root itself.
    pub fn root_frame(&self) -> (f: DirFrame)
        ensures
            self.frame_ok(f),
            f.spec_is_root(),
            f.spec_relative().len() == 0,
            f.spec_source() == self.spec_source_root(),
            f.spec_destination() == self.spec_destination_root(),
    {
        DirFrame {
            source: self.source_root.clone(),
            relative: String::new(),
            destination: self.destination_root.clone(),
            is_root: true,
        }
    }

    /// Whether timestamps decide on the files of this walk.
    pub fn check_timestamps(&self) -> (r: bool)
        ensures
            r == self.spec_check_timestamps(),
    {
        self.check_timestamps
    }

    /// Nothing is left to visit.
    pub fn is_done(&self) -> (r: bool)
        ensures
            r == (self.spec_pending().len() == 0),
    {
        self.pending.len() == 0
    }

    /// Puts the entries of a listed directory on the work-list, each with
    /// its relative path, its source path and its destination under the
    /// frame's own.
    pub fn push_children(&mut self, frame: &DirFrame, children: &Vec<EntryInfo>)
        requires
            old(self).wf(),
            old(self).frame_ok(*frame),
        ensures
            final(self).wf(),
            final(self).same_settings(old(self)),
            final(self).spec_pending().len() == old(self).spec_pending().len() + children@.len(),
            forall|i: int|
                0 <= i < old(self).spec_pending().len() ==> final(self).spec_pending()[i]
                    == old(self).spec_pending()[i],
            forall|k: int|
                0 <= k < children@.len() ==> {
                    let p = #[trigger] final(self).spec_pending()[old(self).spec_pending().len() + k];
                    &&& p.relative@ == Self::child_relative(*frame, children@[k].name@)
                    &&& p.source@ == joined(frame.spec_source(), children@[k].name@)
                    &&& p.destination@ == joined(frame.spec_destination(), children@[k].name@)
                    &&& p.is_dir == children@[k].is_dir
                    &&& p.modified == children@[k].modified
                },
    {
        let ghost start = self.pending@.len();
        let mut k: usize = 0;
        while k < children.len()
            invariant
                self.wf(),
                self.same_settings(old(self)),
                self.frame_ok(*frame),
                k <= children@.len(),
                self.pending@.len() == start + k,
                start == old(self).spec_pending().len(),
                forall|i: int| 0 <= i < start ==> self.pending@[i] == old(self).spec_pending()[i],
                forall|j: int|
                    0 <= j < k ==> {
                        let p = #[trigger] self.pending@[start + j];
                        &&& p.relative@ == Self::child_relative(*frame, children@[j].name@)
                        &&& p.source@ == joined(frame.spec_source(), children@[j].name@)
                        &&& p.destination@ == joined(frame.spec_destination(), children@[j].name@)
                        &&& p.is_dir == children@[j].is_dir
                        &&& p.modified == children@[j].modified
                    },
            decreases children@.len() - k,
        {
            let child = &children[k];
            let relative = if frame.is_root {
                child.name.clone()
            } else {
                join(frame.relative.as_str(), child.name.as_str())
            };
            let entry = PendingEntry {
                relative,
                source: join(frame.source.as_str(), child.name.as_str()),
                destination: join(frame.destination.as_str(), child.name.as_str()),
                is_dir: child.is_dir,
                modified: child.modified,
            };
            proof {
                let n = child.name@;
                if !frame.is_root {
                    assert(joined(joined(self.source_root@, frame.relative@), n) =~= joined(
                        self.source_root@,
                        joined(frame.relative@, n),
                    ));
                    assert(joined(joined(self.destination_root@, frame.relative@), n)
                        =~= joined(self.destination_root@, joined(frame.relative@, n)));
                }
                assert(self.placed(entry));
            }
            let ghost before = self.pending@;
            let ghost w0 = *self;
            let ghost e = entry;
            self.pending.push(entry);
            assert forall|i: int| 0 <= i < self.spec_pending().len() implies self.placed(
                #[trigger] self.spec_pending()[i],
            ) by {
                if i < before.len() {
                    assert(self.spec_pending()[i] == w0.spec_pending()[i]);
                    assert(w0.placed(w0.spec_pending()[i]));
                } else {
                    assert(self.spec_pending()[i] == e);
                }
            }
            k = k + 1;
        }
    }

    /// Takes the next entry off the work-list and says what it is: skipped
    /// when an ignore list excludes it (a file by its base name, a directory
    /// by its relative path), otherwise a directory to descend into or a
    /// file to consider. `None` once nothing is left.
    pub fn next(&mut self) -> (v: Option<Visit>)
        requires
            old(self).wf(),
        ensures
            final(self).wf(),
            final(self).same_settings(old(self)),
            old(self).spec_pending().len() == 0 ==> v is None && final(self).spec_pending()
                == old(self).spec_pending(),
            old(self).spec_pending().len() > 0 ==> {
                &&& v is Some
                &&& final(self).spec_pending() == old(self).spec_pending().drop_last()
                &&& visit_of(
                    v->0,
                    old(self).spec_pending().last(),
                    old(self).spec_file_patterns(),
                    old(self).spec_dir_patterns(),
                )
                &&& old(self).placed(old(self).spec_pending().last())
            },
            // a file whose base name is a plain entry of the file list is never handed out
            v matches Some(Visit::File { job, modified }) ==> forall|i: int|
                0 <= i < old(self).spec_file_patterns().len() && !is_regex_entry(
                    old(self).spec_file_patterns()[i],
                ) ==> file_name_of(old(self).spec_pending().last().relative@) != Some(
                    old(self).spec_file_patterns()[i],
                ),
    {
        match self.pending.pop() {
            None => None,
            Some(p) => {
                assert(old(self).placed(p));
                let skip = is_ignored(
                    p.relative.as_str(),
                    p.is_dir,
                    &self.file_patterns,
                    &self.dir_patterns,
                );
                if skip {
                    Some(Visit::Skipped)
                } else if p.is_dir {
                    Some(
                        Visit::Directory(
                            DirFrame {
                                source: p.source,
                                relative: p.relative,
                                destination: p.destination,
                                is_root: false,
                            },
                        ),
                    )
                } else {
                    proof {
                        assert forall|i: int|
                            0 <= i < self.spec_file_patterns().len() && !is_regex_entry(
                                self.spec_file_patterns()[i],
                            ) implies file_name_of(p.relative@) != Some(
                            self.spec_file_patterns()[i],
                        ) by {
                            if file_name_of(p.relative@) == Some(self.spec_file_patterns()[i]) {
                                lemma_plain_entry_excludes(
                                    p.relative@,
                                    self.spec_file_patterns(),
                                    self.spec_dir_patterns(),
                                    i,
                                );
                            }
                        }
                    }
                    Some(
                        Visit::File {
                            job: CopyJob { source: p.source, destination: p.destination },
                            modified: p.modified,
                        },
                    )
                }
            },
        }
    }
}

} // verus!
