//! The configuration of the backup program and of each of its targets, with
//! the defaults that a missing setting takes.

use vstd::prelude::*;

verus! {

/// The whole configuration.
#[derive(Debug, PartialEq)]
pub struct Config {
    pub targets: Vec<BackupTarget>,
    pub daemon_interval: i32,
    pub color: bool,
    pub fancy_text: bool,
    pub verbose: bool,
    pub runtime_folder: String,
    /// The thread count of a run whose target sets none; one or less
    /// means serial copying.
    pub threads: i32,
}

/// One source and destination pair and its policy.
#[derive(Debug, PartialEq)]
pub struct BackupTarget {
    pub tag: Option<String>,
    pub path: String,
    pub ignore_files: Vec<String>,
    pub ignore_folders: Vec<String>,
    pub target_path: String,
    pub optional: bool,
    pub keep_num: i32,
    pub always_copy: bool,
    pub additional_options: Option<Additional>,
    /// A thread count for this target that overrides the global one.
    pub threads: Option<i32>,
}

/// Settings that select a backend other than the local copy.
#[derive(Debug, PartialEq)]
pub enum Additional {
    /// A remote target; this backend is not implemented.
    Network { url: String, password: String },
}

/// Options shared by every kind of target (none yet).
#[derive(Debug, PartialEq)]
pub struct SharedOptions {}

pub fn default_daemon_interval() -> (r: i32)
    ensures
        r == 0,
{
    0
}

pub fn default_color() -> (r: bool)
    ensures
        r,
{
    true
}

pub fn default_fancy_text() -> (r: bool)
    ensures
        r,
{
    true
}

pub fn default_verbose() -> (r: bool)
    ensures
        !r,
{
    false
}

pub fn default_optional() -> (r: bool)
    ensures
        !r,
{
    false
}

pub fn default_keep_num() -> (r: i32)
    ensures
        r == 1,
{
    1
}

pub fn default_always_copy() -> (r: bool)
    ensures
        !r,
{
    false
}

pub fn default_threads() -> (r: i32)
    ensures
        r == 4,
{
    4
}

impl Config {
    /// The configuration with every setting at its default, no targets, and
    /// the given runtime folder.
    pub fn with_defaults(runtime_folder: String) -> (c: Config)
        ensures
            c.targets@.len() == 0,
            c.daemon_interval == 0,
            c.color,
            c.fancy_text,
            !c.verbose,
            c.runtime_folder == runtime_folder,
            c.threads == 4,
    {
        Config {
            daemon_interval: default_daemon_interval(),
            color: default_color(),
            fancy_text: default_fancy_text(),
            verbose: default_verbose(),
            runtime_folder,
            targets: Vec::new(),
            threads: default_threads(),
        }
    }
}

impl BackupTarget {
    /// A local target with every optional setting at its default.
    pub fn new(path: String, target_path: String) -> (t: BackupTarget)
        ensures
            t.tag is None,
            t.path == path,
            t.target_path == target_path,
            t.ignore_files@.len() == 0,
            t.ignore_folders@.len() == 0,
            !t.optional,
            t.keep_num == 1,
            !t.always_copy,
            t.additional_options is None,
            t.threads is None,
    {
        BackupTarget {
            tag: None,
            path,
            ignore_files: Vec::new(),
            ignore_folders: Vec::new(),
            target_path,
            optional: default_optional(),
            keep_num: default_keep_num(),
            always_copy: default_always_copy(),
            additional_options: None,
            threads: None,
        }
    }
}

} // verus!
