//! The incremental decision: is a destination file already up to date?

use vstd::prelude::*;

verus! {

/// A last-modified time: whole seconds since the Unix epoch and the
/// nanoseconds past that second.
#[derive(Clone, Copy, Debug, PartialEq, Eq, Structural)]
pub struct FileTime {
    pub secs: i64,
    pub nanos: u32,
}

/// `a` lies strictly after `b`.
pub open spec fn newer_than(a: FileTime, b: FileTime) -> bool {
    a.secs > b.secs || (a.secs == b.secs && a.nanos > b.nanos)
}

/// Whether a run compares timestamps at all: only a single-copy target that
/// does not ask to always copy does.
pub open spec fn checks_timestamps(keep_count: int, always_copy: bool) -> bool {
    keep_count == 1 && !always_copy
}

/// The copy verdict for one file.
pub open spec fn copy_needed(source: FileTime, destination: Option<FileTime>, check: bool) -> bool {
    match destination {
        None => true,
        Some(d) => !check || newer_than(source, d),
    }
}

impl FileTime {
    pub fn is_newer_than(&self, other: &FileTime) -> (r: bool)
        ensures
            r == newer_than(*self, *other),
    {
        self.secs > other.secs || (self.secs == other.secs && self.nanos > other.nanos)
    }
}

/// Whether timestamps are compared for a target with this retention count
/// and copy policy.
pub fn check_timestamps(keep_count: i32, always_copy: bool) -> (r: bool)
    ensures
        r == checks_timestamps(keep_count as int, always_copy),
{
    keep_count == 1 && !always_copy
}

/// Decides whether a file must be copied: always when timestamps are not
/// checked or the destination does not exist, otherwise only when the source
/// is strictly newer than the destination.
pub fn should_copy(source: FileTime, destination: Option<FileTime>, check: bool) -> (r: bool)
    ensures
        r == copy_needed(source, destination, check),
{
    match destination {
        None => true,
        Some(d) => !check || source.is_newer_than(&d),
    }
}

/// A file that is not newer than its existing copy is left alone when
/// timestamps are checked, and is copied again whenever the target asks to
/// always copy.
pub proof fn lemma_copy_verdict(source: FileTime, existing: FileTime, keep_count: int)
    ensures
        !newer_than(source, existing) ==> !copy_needed(source, Some(existing), true),
        copy_needed(source, Some(existing), checks_timestamps(keep_count, true)),
{
}

} // verus!
