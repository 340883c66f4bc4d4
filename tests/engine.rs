use backup_rat::incremental::check_timestamps;
use backup_rat::{
    checked_sum, should_copy, Additional, BackupError, BackupTarget, Command, Config, CopyJob,
    CopyOperation, Dispatcher, EntryInfo, FileTime, LocalCopy, RemoteCopy, RunPlan, SourceKind,
    Visit, Walker, WorkerAction, WorkerTally,
};

fn t(secs: i64) -> FileTime {
    FileTime { secs, nanos: 0 }
}

fn entry(name: &str, is_dir: bool) -> EntryInfo {
    EntryInfo { name: name.to_string(), is_dir, modified: t(100) }
}

fn target(path: &str, dest: &str) -> BackupTarget {
    BackupTarget::new(path.to_string(), dest.to_string())
}

/// Runs a walk over a fake tree: `listing` gives the entries of each
/// source directory. Returns the jobs whose verdict is to copy, and the
/// directories the walk asked to create.
fn walk(mut w: Walker, listing: &dyn Fn(&str) -> Vec<EntryInfo>) -> (Vec<CopyJob>, Vec<String>) {
    let root = w.root_frame();
    w.push_children(&root, &listing(root.source()));
    let mut jobs = Vec::new();
    let mut dirs = Vec::new();
    while let Some(v) = w.next() {
        match v {
            Visit::Skipped => {}
            Visit::Directory(frame) => {
                dirs.push(frame.destination().clone());
                let children = listing(frame.source());
                w.push_children(&frame, &children);
            }
            Visit::File { job, modified } => {
                if should_copy(modified, None, w.check_timestamps()) {
                    jobs.push(job);
                }
            }
        }
    }
    (jobs, dirs)
}

#[test]
fn single_file_scenario() {
    let tg = target("/a/report.txt", "/b");
    let plan = tg.plan_run(1, true, SourceKind::File, "").unwrap();
    match plan {
        RunPlan::SingleFile { job, check_timestamps } => {
            assert_eq!(job.source, "/a/report.txt");
            assert_eq!(job.destination, "/b/report.txt");
            assert!(check_timestamps);
            // destination empty: the file is copied, one file in all
            let copied = if should_copy(t(5), None, check_timestamps) { 1 } else { 0 };
            assert_eq!(copied, 1);
        }
        _ => panic!("expected a single file"),
    }
}

#[test]
fn ignored_log_scenario() {
    let mut tg = target("/a", "/b");
    tg.ignore_files = vec!["r#\\.log$".to_string()];
    let plan = tg.plan_run(1, true, SourceKind::Directory, "").unwrap();
    let run = match plan {
        RunPlan::Tree(run) => run,
        _ => panic!("expected a tree"),
    };
    assert_eq!(run.root, "/b/a");
    assert!(run.prune.is_none());
    assert_eq!(run.workers, 0);
    let (jobs, _) = walk(run.walker, &|dir| {
        if dir == "/a" {
            vec![entry("x.log", false), entry("y.txt", false)]
        } else {
            vec![]
        }
    });
    assert_eq!(jobs.len(), 1);
    assert_eq!(jobs[0].source, "/a/y.txt");
    assert_eq!(jobs[0].destination, "/b/a/y.txt");
}

#[test]
fn snapshot_runs_scenario() {
    let mut tg = target("/a", "/b");
    tg.keep_num = 2;
    let plan = tg.plan_run(1, true, SourceKind::Directory, "2024-05-01 12:00:00").unwrap();
    match plan {
        RunPlan::Tree(run) => {
            assert_eq!(run.root, "/b/a/2024-05-01 12:00:00");
            assert_eq!(run.snapshot, Some("2024-05-01 12:00:00".to_string()));
            assert_eq!(run.prune, Some("/b/a".to_string()));
            assert_eq!(run.keep_count, 2);
            assert!(!run.walker.check_timestamps());
        }
        _ => panic!("expected a tree"),
    }
}

#[test]
fn missing_destination_scenario() {
    let tg = target("/a", "/nowhere");
    let r = tg.plan_run(4, false, SourceKind::Directory, "");
    assert_eq!(r.err(), Some(BackupError::DestinationNotFound));
    let r = tg.backup(4, false, SourceKind::File);
    assert_eq!(r.err(), Some(BackupError::DestinationNotFound));
}

#[test]
fn each_error_in_order() {
    let mut remote = target("/a", "/b");
    remote.additional_options = Some(Additional::Network {
        url: "www.test.com".to_string(),
        password: "test".to_string(),
    });
    assert_eq!(remote.plan_run(1, false, SourceKind::Missing, "").err(), Some(BackupError::Unsupported));
    let mut bad_keep = target("/a", "/b");
    bad_keep.keep_num = 0;
    assert_eq!(bad_keep.plan_run(1, false, SourceKind::Missing, "").err(), Some(BackupError::InvalidKeepCount));
    let tg = target("/a", "/b");
    assert_eq!(tg.plan_run(1, true, SourceKind::Missing, "").err(), Some(BackupError::SourceNotFound));
    let root = target("/", "/b");
    assert_eq!(root.plan_run(1, true, SourceKind::Directory, "").err(), Some(BackupError::NoFileName));
}

#[test]
fn excluded_single_file() {
    let mut tg = target("/a/secret.key", "/b");
    tg.ignore_files = vec!["secret.key".to_string()];
    tg.always_copy = true;
    assert!(matches!(tg.plan_run(1, true, SourceKind::File, ""), Ok(RunPlan::Excluded)));
}

#[test]
fn plain_entry_never_copied() {
    for (keep, always) in [(1, false), (1, true), (3, false), (3, true)] {
        let mut tg = target("/src", "/dst");
        tg.keep_num = keep;
        tg.always_copy = always;
        tg.ignore_files = vec!["skip.me".to_string()];
        let run = match tg.plan_run(1, true, SourceKind::Directory, "s") {
            Ok(RunPlan::Tree(run)) => run,
            _ => panic!("expected a tree"),
        };
        let (jobs, _) = walk(run.walker, &|dir| match dir {
            "/src" => vec![entry("skip.me", false), entry("sub", true), entry("keep.me", false)],
            "/src/sub" => vec![entry("skip.me", false)],
            _ => vec![],
        });
        assert_eq!(jobs.len(), 1);
        assert!(jobs.iter().all(|j| !j.source.ends_with("skip.me")));
    }
}

#[test]
fn ignored_directory_is_not_descended() {
    let mut tg = target("/src", "/dst");
    tg.ignore_folders = vec!["sub/cache".to_string()];
    let run = match tg.plan_run(1, true, SourceKind::Directory, "") {
        Ok(RunPlan::Tree(run)) => run,
        _ => panic!("expected a tree"),
    };
    let (jobs, dirs) = walk(run.walker, &|dir| match dir {
        "/src" => vec![entry("sub", true), entry("top.txt", false)],
        "/src/sub" => vec![entry("cache", true), entry("mid.txt", false)],
        "/src/sub/cache" => vec![entry("deep.txt", false)],
        _ => vec![],
    });
    let mut dests: Vec<String> = jobs.iter().map(|j| j.destination.clone()).collect();
    dests.sort();
    assert_eq!(dests, vec!["/dst/src/sub/mid.txt".to_string(), "/dst/src/top.txt".to_string()]);
    assert_eq!(dirs, vec!["/dst/src/sub".to_string()]);
}

#[test]
fn walker_yields_entries_last_in_first_out() {
    let mut w = Walker::new("/s".to_string(), "/d".to_string(), vec![], vec![], true);
    assert!(w.is_done());
    let root = w.root_frame();
    assert_eq!(root.relative(), "");
    w.push_children(&root, &vec![entry("a", false), entry("b", false)]);
    match w.next() {
        Some(Visit::File { job, modified }) => {
            assert_eq!(job.source, "/s/b");
            assert_eq!(job.destination, "/d/b");
            assert_eq!(modified, t(100));
        }
        _ => panic!("expected a file"),
    }
    assert!(matches!(w.next(), Some(Visit::File { .. })));
    assert!(w.next().is_none());
    assert!(w.is_done());
}

#[test]
fn nested_frames_keep_relative_paths() {
    let mut w = Walker::new("/s".to_string(), "/d".to_string(), vec![], vec![], false);
    let root = w.root_frame();
    w.push_children(&root, &vec![entry("x", true)]);
    let frame = match w.next() {
        Some(Visit::Directory(f)) => f,
        _ => panic!("expected a directory"),
    };
    assert_eq!(frame.relative(), "x");
    assert_eq!(frame.source(), "/s/x");
    assert_eq!(frame.destination(), "/d/x");
    w.push_children(&frame, &vec![entry("y", true)]);
    match w.next() {
        Some(Visit::Directory(f)) => {
            assert_eq!(f.relative(), "x/y");
            assert_eq!(f.source(), "/s/x/y");
            assert_eq!(f.destination(), "/d/x/y");
        }
        _ => panic!("expected a directory"),
    }
}

#[test]
fn timestamp_verdicts() {
    // older and equal sources are not copied when timestamps are checked
    assert!(!should_copy(t(10), Some(t(20)), true));
    assert!(!should_copy(t(20), Some(t(20)), true));
    assert!(!should_copy(FileTime { secs: 20, nanos: 4 }, Some(FileTime { secs: 20, nanos: 5 }), true));
    assert!(should_copy(FileTime { secs: 20, nanos: 6 }, Some(FileTime { secs: 20, nanos: 5 }), true));
    assert!(should_copy(t(21), Some(t(20)), true));
    // no destination, or no check: always copied
    assert!(should_copy(t(10), None, true));
    assert!(should_copy(t(10), Some(t(20)), false));
}

#[test]
fn always_copy_recopies() {
    let check = check_timestamps(1, true);
    assert!(!check);
    assert!(should_copy(t(10), Some(t(20)), check));
    assert!(should_copy(t(20), Some(t(20)), check));
    assert!(check_timestamps(1, false));
    assert!(!check_timestamps(2, false));
}

#[test]
fn workers_from_thread_counts() {
    let mut tg = target("/a", "/b");
    let workers = |tg: &BackupTarget, global: i32| match tg.plan_run(global, true, SourceKind::Directory, "") {
        Ok(RunPlan::Tree(run)) => run.workers,
        _ => panic!("expected a tree"),
    };
    assert_eq!(workers(&tg, 4), 3);
    assert_eq!(workers(&tg, 1), 0);
    assert_eq!(workers(&tg, -3), 0);
    tg.threads = Some(2);
    assert_eq!(workers(&tg, 8), 1);
    tg.threads = Some(1);
    assert_eq!(workers(&tg, 8), 0);
}

#[test]
fn parallel_and_serial_copy_the_same_files() {
    let listing = |dir: &str| match dir {
        "/src" => vec![entry("a", false), entry("d", true), entry("b.log", false)],
        "/src/d" => vec![entry("c", false)],
        _ => vec![],
    };
    let mut tg = target("/src", "/dst");
    tg.ignore_files = vec!["r#\\.log$".to_string()];
    let serial = match tg.plan_run(1, true, SourceKind::Directory, "") {
        Ok(RunPlan::Tree(run)) => walk(run.walker, &listing).0,
        _ => panic!("expected a tree"),
    };
    let run = match tg.plan_run(3, true, SourceKind::Directory, "") {
        Ok(RunPlan::Tree(run)) => run,
        _ => panic!("expected a tree"),
    };
    assert_eq!(run.workers, 2);
    let (jobs, _) = walk(run.walker, &listing);
    let mut d = Dispatcher::new(run.workers);
    let mut queue: Vec<Command> = jobs.into_iter().map(|j| d.copy(j)).collect();
    queue.extend(d.finish());
    assert_eq!(queue.len(), serial.len() + 2);
    // two workers take from the queue in turn
    let mut tallies = vec![WorkerTally::new(), WorkerTally::new()];
    let mut stopped = [false, false];
    let mut copied: Vec<String> = Vec::new();
    for (i, cmd) in queue.into_iter().enumerate() {
        let w = i % 2;
        match tallies[w].take(cmd) {
            WorkerAction::Copy(job) => {
                copied.push(job.destination.clone());
                tallies[w].record(true);
            }
            WorkerAction::Stop => stopped[w] = true,
        }
    }
    assert!(stopped[0] && stopped[1]);
    let mut expected: Vec<String> = serial.iter().map(|j| j.destination.clone()).collect();
    expected.sort();
    copied.sort();
    assert_eq!(copied, expected);
    assert_eq!(expected, vec!["/dst/src/a".to_string(), "/dst/src/d/c".to_string()]);
    let counts: Vec<u64> = tallies.iter().map(|t| t.copied).collect();
    assert_eq!(checked_sum(&counts), Some(2));
}

#[test]
fn failed_copies_do_not_count() {
    let mut tally = WorkerTally::new();
    tally.record(false);
    tally.record(true);
    tally.record(false);
    assert_eq!(tally.copied, 1);
    let mut full = WorkerTally { copied: u64::MAX };
    full.record(true);
    assert_eq!(full.copied, u64::MAX);
}

#[test]
fn terminations_one_per_worker() {
    let mut d = Dispatcher::new(3);
    assert_eq!(d.workers(), 3);
    let cs = d.finish();
    assert_eq!(cs.len(), 3);
    assert!(cs.iter().all(|c| matches!(c, Command::Terminate)));
    let mut none = Dispatcher::new(0);
    assert!(none.finish().is_empty());
}

#[test]
fn sum_overflow_is_reported() {
    assert_eq!(checked_sum(&vec![]), Some(0));
    assert_eq!(checked_sum(&vec![1, 2, 3]), Some(6));
    assert_eq!(checked_sum(&vec![u64::MAX, 0]), Some(u64::MAX));
    assert_eq!(checked_sum(&vec![u64::MAX, 1]), None);
}

#[test]
fn backup_names_snapshot_by_current_time() {
    let mut tg = target("/a", "/b");
    tg.keep_num = 3;
    match tg.backup(1, true, SourceKind::Directory) {
        Ok(RunPlan::Tree(run)) => {
            let stamp = run.snapshot.expect("a snapshot name");
            assert_eq!(stamp.len(), 19);
            let b = stamp.as_bytes();
            assert_eq!((b[4], b[7], b[10], b[13], b[16]), (b'-', b'-', b' ', b':', b':'));
            assert!(stamp.as_str() > "2020-01-01 00:00:00");
            assert_eq!(run.root, format!("/b/a/{}", stamp));
        }
        _ => panic!("expected a tree"),
    }
    let single = target("/a", "/b");
    match single.backup(1, true, SourceKind::Directory) {
        Ok(RunPlan::Tree(run)) => assert!(run.snapshot.is_none()),
        _ => panic!("expected a tree"),
    }
}

#[test]
fn defaults() {
    let c = Config::with_defaults("/home/u/.backup_rat".to_string());
    assert!(c.targets.is_empty());
    assert_eq!(c.daemon_interval, 0);
    assert!(c.color && c.fancy_text && !c.verbose);
    assert_eq!(c.threads, 4);
    let tg = target("/etc", "/mnt/backup");
    assert_eq!(tg.keep_num, 1);
    assert!(!tg.always_copy && !tg.optional);
    assert!(tg.additional_options.is_none());
}

#[test]
fn local_copy_lists_everything() {
    let tg = target("/etc", "/mnt/backup");
    assert_eq!(LocalCopy::prepare_target(target("/etc", "/x"), false).err(), Some(BackupError::SourceNotFound));
    let op = LocalCopy::prepare_target(tg, true).ok().unwrap();
    assert_eq!(op.target().path, "/etc");
    let w = op.file_list().unwrap();
    assert!(!w.check_timestamps());
    let (jobs, _) = walk(w, &|dir| match dir {
        "/etc" => vec![entry("hosts", false), entry("ssl", true)],
        "/etc/ssl" => vec![entry("cert.pem", false)],
        _ => vec![],
    });
    let mut dests: Vec<String> = jobs.iter().map(|j| j.destination.clone()).collect();
    dests.sort();
    assert_eq!(dests, vec!["/mnt/backup/etc/hosts".to_string(), "/mnt/backup/etc/ssl/cert.pem".to_string()]);
}

#[test]
fn local_copy_walk_and_remote_refusal() {
    let op = LocalCopy::prepare(target("/data/", "/mnt"), true).ok().unwrap();
    let w = op.walk().unwrap();
    let root = w.root_frame();
    assert_eq!(root.source(), "/data/");
    assert_eq!(root.destination(), "/mnt/data");
    assert!(LocalCopy::prepare(target("/", "/mnt"), true).ok().unwrap().walk().is_none());
    assert_eq!(RemoteCopy::prepare_target(target("/data", "/mnt"), true).err(), Some(BackupError::Unsupported));
}
