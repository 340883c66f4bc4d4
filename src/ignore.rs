//! The ignore matcher: decides whether a file or a directory is excluded.
//!
//! An entry of an ignore list is either plain text, which must equal the
//! candidate exactly, or, after the marker `r#`, a regular expression that
//! may match anywhere in the candidate. A regular expression that does not
//! compile matches nothing.

use crate::paths::{file_name, file_name_of, texts};
use vstd::prelude::*;
use vstd::string::*;

verus! {

/// Whether `regex::Regex::new` accepts the pattern.
pub uninterp spec fn regex_compiles(pattern: Seq<char>) -> bool;

/// Whether the compiled pattern matches somewhere in the haystack.
pub uninterp spec fn regex_finds(pattern: Seq<char>, haystack: Seq<char>) -> bool;

/// Relies on `regex::Regex::new`, which fails exactly on the patterns that do
/// not compile, and on `regex::Regex::is_match`, which reports a match
/// anywhere in the haystack. `None` stands for a pattern that did not compile.
#[verifier::external_body]
fn regex_search(pattern: &str, haystack: &str) -> (r: Option<bool>)
    ensures
        r.is_some() == regex_compiles(pattern@),
        r.is_some() ==> r.unwrap() == regex_finds(pattern@, haystack@),
{
    match regex::Regex::new(pattern) {
        Ok(re) => Some(re.is_match(haystack)),
        Err(_) => None,
    }
}

/// The entry is a regular expression: it starts with `r#`.
pub open spec fn is_regex_entry(entry: Seq<char>) -> bool {
    entry.len() >= 2 && entry[0] == 'r' && entry[1] == '#'
}

/// One entry of an ignore list against one candidate.
pub open spec fn entry_matches(entry: Seq<char>, candidate: Seq<char>) -> bool {
    if is_regex_entry(entry) {
        let pattern = entry.skip(2);
        regex_compiles(pattern) && regex_finds(pattern, candidate)
    } else {
        entry == candidate
    }
}

/// Some entry of the list matches the candidate.
pub open spec fn list_matches(entries: Seq<Seq<char>>, candidate: Seq<char>) -> bool {
    exists|i: int| 0 <= i < entries.len() && #[trigger] entry_matches(entries[i], candidate)
}

/// Whether a path is ignored: a file by its base name against the file list,
/// a directory by its path (relative to the source root) against the
/// directory list.
pub open spec fn ignored(
    path: Seq<char>,
    is_directory: bool,
    file_entries: Seq<Seq<char>>,
    dir_entries: Seq<Seq<char>>,
) -> bool {
    if is_directory {
        list_matches(dir_entries, path)
    } else {
        match file_name_of(path) {
            Some(name) => list_matches(file_entries, name),
            None => false,
        }
    }
}

/// Tests one entry of an ignore list against a candidate.
pub fn matches_entry(entry: &str, candidate: &str) -> (r: bool)
    ensures
        r == entry_matches(entry@, candidate@),
{
    let len = entry.unicode_len();
    if len >= 2 && entry.get_char(0) == 'r' && entry.get_char(1) == '#' {
        let pattern = entry.substring_char(2, len);
        assert(pattern@ =~= entry@.skip(2));
        match regex_search(pattern, candidate) {
            Some(found) => found,
            None => false,
        }
    } else {
        let plain = entry.to_owned();
        let cand = candidate.to_owned();
        plain == cand
    }
}

/// Whether any entry of the list matches the candidate.
pub fn matches_any(entries: &Vec<String>, candidate: &str) -> (r: bool)
    ensures
        r == list_matches(texts(entries@), candidate@),
{
    let mut i: usize = 0;
    while i < entries.len()
        invariant
            i <= entries@.len(),
            forall|j: int| 0 <= j < i ==> !entry_matches(#[trigger] texts(entries@)[j], candidate@),
        decreases entries@.len() - i,
    {
        if matches_entry(entries[i].as_str(), candidate) {
            assert(entry_matches(texts(entries@)[i as int], candidate@));
            return true;
        }
        i = i + 1;
    }
    false
}

/// Decides whether a path is excluded. A file is tested by its base name
/// against `file_patterns`; a directory by its path relative to the source
/// root against `dir_patterns`. The result depends on the arguments alone.
pub fn is_ignored(
    path: &str,
    is_directory: bool,
    file_patterns: &Vec<String>,
    dir_patterns: &Vec<String>,
) -> (r: bool)
    ensures
        r == ignored(path@, is_directory, texts(file_patterns@), texts(dir_patterns@)),
{
    if is_directory {
        matches_any(dir_patterns, path)
    } else {
        match file_name(path) {
            Some(name) => matches_any(file_patterns, name.as_str()),
            None => false,
        }
    }
}

/// A plain entry of the file list that equals a file's base name excludes
/// that file.
pub proof fn lemma_plain_entry_excludes(
    path: Seq<char>,
    file_entries: Seq<Seq<char>>,
    dir_entries: Seq<Seq<char>>,
    i: int,
)
    requires
        0 <= i < file_entries.len(),
        !is_regex_entry(file_entries[i]),
        file_name_of(path) == Some(file_entries[i]),
    ensures
        ignored(path, false, file_entries, dir_entries),
{
    assert(entry_matches(file_entries[i], file_entries[i]));
}

} // verus!
