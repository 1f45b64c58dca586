use vac::app::{CleanableEntry, EntryKind};
use vac::clean_run::{CleanRun, FsReply, FsRequest, ListedChild};
use vac::cleaner::{Cleaner, ContentCount, ContentProbe};
use vac::scanner::Scanner;
use vac::walk::{NodeKind, WalkEntry};

const FORBIDDEN_PATHS: &[&str] = &[
    "/",
    "/System",
    "/Library",
    "/Applications",
    "/Users",
    "/bin",
    "/sbin",
    "/usr",
    "/var",
    "/etc",
    "/private",
];

fn item(path: &str, kind: EntryKind, size: Option<u64>) -> CleanableEntry {
    CleanableEntry {
        kind,
        category: None,
        path: path.to_string(),
        name: "item".to_string(),
        size,
        modified_at: None,
    }
}

fn walked(path: &str, kind: NodeKind, size: Option<u64>) -> WalkEntry {
    WalkEntry { path: path.to_string(), kind, size }
}

fn child(path: &str, is_dir: bool) -> ListedChild {
    ListedChild { path: path.to_string(), is_dir, error: None }
}

fn unreadable(error: &str) -> ListedChild {
    ListedChild { path: String::new(), is_dir: false, error: Some(error.to_string()) }
}

fn show(request: &FsRequest) -> String {
    match request {
        FsRequest::Probe { path } => format!("probe {path}"),
        FsRequest::List { path } => format!("list {path}"),
        FsRequest::Remove { path, recursive } => format!("remove {path} {recursive}"),
        FsRequest::Trash { path } => format!("trash {path}"),
    }
}

/// A pretended filesystem: `/t/a` is a file, `/t/d` a directory that holds
/// the file `/t/d/b` and the directory `/t/d/sub`. What is named `locked…`
/// cannot be removed.
fn pretend(request: &FsRequest) -> FsReply {
    match request {
        FsRequest::Probe { path } => match path.as_str() {
            "/t/a" => FsReply::Probed { exists: true, is_dir: false },
            "/t/d" | "/t/locked-dir" | "/t/closed" | "/t/empty" => {
                FsReply::Probed { exists: true, is_dir: true }
            }
            "/t/locked-file" => FsReply::Probed { exists: true, is_dir: false },
            _ => FsReply::Probed { exists: false, is_dir: false },
        },
        FsRequest::List { path } => match path.as_str() {
            "/t/d" => FsReply::Listed {
                children: vec![child("/t/d/b", false), child("/t/d/sub", true)],
            },
            "/t/locked-dir" => FsReply::Listed {
                children: vec![
                    child("/t/locked-dir/locked-1", false),
                    unreadable("bad entry"),
                    child("/t/locked-dir/free", false),
                    child("/t/locked-dir/locked-2", true),
                ],
            },
            "/t/empty" => FsReply::Listed { children: Vec::new() },
            _ => FsReply::ListFailed { error: "permission denied".to_string() },
        },
        FsRequest::Remove { path, .. } | FsRequest::Trash { path } => {
            if path.rsplit('/').next().map_or(false, |name| name.starts_with("locked")) {
                FsReply::Failed { error: "busy".to_string() }
            } else {
                FsReply::Done
            }
        }
    }
}

fn drive(run: &mut CleanRun) -> Vec<String> {
    let mut log = Vec::new();
    while let Some(request) = run.request() {
        log.push(show(&request));
        run.reply(pretend(&request));
        assert!(log.len() < 100);
    }
    assert!(run.is_complete());
    log
}

#[test]
fn is_safe_to_delete_rejects_forbidden_paths() {
    for path in FORBIDDEN_PATHS {
        assert!(!Cleaner::is_safe_to_delete(Some(path)));
    }
}

#[test]
fn is_safe_to_delete_rejects_user_home_directory() {
    if let Some(scanner) = Scanner::new() {
        assert!(!Cleaner::is_safe_to_delete(Some(scanner.home_dir().as_str())));
    }
}

#[test]
fn is_safe_to_delete_rejects_nonexistent_paths() {
    // A path that does not exist has no canonical form.
    let canonical = std::path::Path::new("/tmp/vac-nonexistent-path-12345")
        .canonicalize()
        .ok()
        .map(|p| p.display().to_string());
    assert!(canonical.is_none());
    assert!(!Cleaner::is_safe_to_delete(canonical.as_deref()));
}

#[test]
fn is_safe_to_delete_accepts_tmp_paths() {
    assert!(Cleaner::is_safe_to_delete(Some("/tmp/vac-test-k3J9xQ")));
}

#[test]
fn safety_is_decided_on_the_canonical_path() {
    let home = Some("/home/erin");
    for path in FORBIDDEN_PATHS {
        assert!(!Cleaner::is_safe_canonical(path, home));
        assert!(!Cleaner::is_safe_canonical(path, None));
    }
    assert!(!Cleaner::is_safe_canonical("/home/erin", home));
    assert!(!Cleaner::is_safe_canonical("/home/erin", Some("/home/erin/")));
    assert!(Cleaner::is_safe_canonical("/home/erin/Downloads/x", home));
    assert!(Cleaner::is_safe_canonical("/home/erin/Downloads/x", Some("/home/erin/")));
    assert!(!Cleaner::is_safe_canonical("/home/erin/Downloads/x", None));
    assert!(!Cleaner::is_safe_canonical("/home/erinx/file", home));
    assert!(!Cleaner::is_safe_canonical("/home", home));
    assert!(!Cleaner::is_safe_canonical("/opt/data", home));
    assert!(!Cleaner::is_safe_canonical("", home));
    assert!(Cleaner::is_safe_canonical("/tmp", home));
    assert!(Cleaner::is_safe_canonical("/tmp/x", None));
    assert!(Cleaner::is_safe_canonical("/private/tmp/x", None));
    assert!(Cleaner::is_safe_canonical("/var/tmp", None));
    assert!(Cleaner::is_safe_canonical("/var/tmp/y/z", None));
    assert!(!Cleaner::is_safe_canonical("/tmpfoo", None));
    assert!(!Cleaner::is_safe_canonical("/var/tmpx", None));
    assert!(!Cleaner::is_safe_canonical("/var/log", None));
    // The home directory itself stays out even where it is temporary.
    assert!(!Cleaner::is_safe_canonical("/tmp/home", Some("/tmp/home")));
    assert!(Cleaner::is_safe_canonical("/tmp/home/x", Some("/tmp/home")));
    // With the root as home everything that is not forbidden lies below it.
    assert!(Cleaner::is_safe_canonical("/srv/x", Some("/")));
    assert!(!Cleaner::is_safe_canonical("/usr", Some("/")));
}

#[test]
fn first_unsafe_item_is_found() {
    let items = vec![
        item("/tmp/a", EntryKind::File, Some(1)),
        item("/etc", EntryKind::Directory, Some(1)),
        item("/gone", EntryKind::File, Some(1)),
    ];
    let all = vec![Some("/tmp/a".to_string()), Some("/etc".to_string()), None];
    assert_eq!(Cleaner::first_unsafe(&items, &all, None), Some(1));
    let fine = vec![Some("/tmp/a".to_string()), Some("/tmp/b".to_string()), None];
    assert_eq!(Cleaner::first_unsafe(&items, &fine, None), Some(2));
    let short = vec![Some("/tmp/a".to_string())];
    assert_eq!(Cleaner::first_unsafe(&items, &short, None), Some(1));
    let safe = vec![
        Some("/tmp/a".to_string()),
        Some("/h/x".to_string()),
        Some("/var/tmp/q".to_string()),
    ];
    assert_eq!(Cleaner::first_unsafe(&items, &safe, Some("/h")), None);
    assert_eq!(Cleaner::first_unsafe(&Vec::new(), &Vec::new(), None), None);
}

#[test]
fn clean_removes_files_and_dir_contents() {
    let file_item = item("/t/a", EntryKind::File, Some(5));
    let dir_item = item("/t/d", EntryKind::Directory, Some(5));

    let mut run = Cleaner::clean(vec![file_item, dir_item]);
    let log = drive(&mut run);
    let result = run.result();

    assert!(result.success);
    assert_eq!(result.freed_space, 10);
    assert!(result.errors.is_empty());
    assert_eq!(
        log,
        vec![
            "probe /t/a",
            "remove /t/a false",
            "probe /t/d",
            "list /t/d",
            "remove /t/d/b false",
            "remove /t/d/sub true",
        ]
    );
    // The directory itself is never removed.
    assert!(!log.iter().any(|line| line.starts_with("remove /t/d ")));
}

#[test]
fn trash_items_moves_files_to_trash() {
    let file_item = item("/t/a", EntryKind::File, Some(10));
    let mut run = Cleaner::trash_items(vec![file_item]);
    let log = drive(&mut run);
    let result = run.result();
    assert!(result.success);
    assert_eq!(result.freed_space, 10);
    assert_eq!(log, vec!["probe /t/a", "trash /t/a"]);
}

#[test]
fn trash_items_moves_dir_contents_to_trash() {
    let dir_item = item("/t/d", EntryKind::Directory, Some(5));
    let mut run = Cleaner::trash_items(vec![dir_item]);
    let log = drive(&mut run);
    let result = run.result();
    assert!(result.success);
    assert_eq!(result.freed_space, 5);
    assert_eq!(log, vec!["probe /t/d", "list /t/d", "trash /t/d/b", "trash /t/d/sub"]);
}

#[test]
fn trash_items_skips_nonexistent_paths() {
    let item = CleanableEntry {
        kind: EntryKind::File,
        category: None,
        path: "/tmp/vac-nonexistent-trash-12345".to_string(),
        name: "nonexistent".to_string(),
        size: Some(0),
        modified_at: None,
    };

    let mut run = Cleaner::trash_items(vec![item]);
    let log = drive(&mut run);
    let result = run.result();
    assert!(result.success);
    assert_eq!(result.freed_space, 0);
    assert_eq!(log, vec!["probe /tmp/vac-nonexistent-trash-12345"]);
}

#[test]
fn missing_item_frees_nothing() {
    let mut run = Cleaner::clean(vec![
        item("/t/gone", EntryKind::File, Some(77)),
        item("/t/a", EntryKind::File, None),
    ]);
    let log = drive(&mut run);
    let result = run.result();
    assert!(result.success);
    assert_eq!(result.freed_space, 0);
    assert_eq!(log, vec!["probe /t/gone", "probe /t/a", "remove /t/a false"]);
}

#[test]
fn clean_stops_an_item_at_its_first_failure_and_goes_on() {
    let mut run = Cleaner::clean(vec![
        item("/t/locked-dir", EntryKind::Directory, Some(100)),
        item("/t/closed", EntryKind::Directory, Some(10)),
        item("/t/locked-file", EntryKind::File, Some(20)),
        item("/t/empty", EntryKind::Directory, Some(3)),
        item("/t/a", EntryKind::File, Some(4)),
    ]);
    let log = drive(&mut run);
    let result = run.result();
    assert!(!result.success);
    assert_eq!(result.freed_space, 7);
    assert_eq!(
        result.errors,
        vec![
            "/t/locked-dir: busy".to_string(),
            "/t/closed: permission denied".to_string(),
            "/t/locked-file: busy".to_string(),
        ]
    );
    assert_eq!(
        log,
        vec![
            "probe /t/locked-dir",
            "list /t/locked-dir",
            "remove /t/locked-dir/locked-1 false",
            "probe /t/closed",
            "list /t/closed",
            "probe /t/locked-file",
            "remove /t/locked-file false",
            "probe /t/empty",
            "list /t/empty",
            "probe /t/a",
            "remove /t/a false",
        ]
    );
}

#[test]
fn unreadable_child_fails_a_permanent_removal() {
    let mut run = Cleaner::clean(vec![item("/x", EntryKind::Directory, Some(9))]);
    assert!(matches!(run.request(), Some(FsRequest::Probe { .. })));
    run.reply(FsReply::Probed { exists: true, is_dir: true });
    run.reply(FsReply::Listed { children: vec![child("/x/1", false), unreadable("io error")] });
    assert_eq!(run.request().map(|r| show(&r)), Some("remove /x/1 false".to_string()));
    run.reply(FsReply::Done);
    assert!(run.is_complete());
    assert!(run.request().is_none());
    let result = run.result();
    assert_eq!(result.errors, vec!["/x: io error".to_string()]);
    assert_eq!(result.freed_space, 0);
}

#[test]
fn trash_tries_every_child_and_reports_all_failures() {
    let mut run = Cleaner::trash_items(vec![
        item("/t/locked-dir", EntryKind::Directory, Some(100)),
        item("/t/a", EntryKind::File, Some(4)),
    ]);
    let log = drive(&mut run);
    let result = run.result();
    assert!(!result.success);
    assert_eq!(result.freed_space, 4);
    assert_eq!(
        result.errors,
        vec![
            "/t/locked-dir: /t/locked-dir/locked-1: busy; /t/locked-dir/locked-2: busy"
                .to_string()
        ]
    );
    assert_eq!(
        log,
        vec![
            "probe /t/locked-dir",
            "list /t/locked-dir",
            "trash /t/locked-dir/locked-1",
            "trash /t/locked-dir/free",
            "trash /t/locked-dir/locked-2",
            "probe /t/a",
            "trash /t/a",
        ]
    );
}

#[test]
fn replies_out_of_turn_change_nothing() {
    let mut run = Cleaner::clean(vec![item("/t/a", EntryKind::File, Some(5))]);
    run.reply(FsReply::Done);
    run.reply(FsReply::Failed { error: "x".to_string() });
    run.reply(FsReply::Listed { children: Vec::new() });
    run.reply(FsReply::ListFailed { error: "x".to_string() });
    assert_eq!(run.request().map(|r| show(&r)), Some("probe /t/a".to_string()));
    run.reply(FsReply::Probed { exists: true, is_dir: false });
    run.reply(FsReply::Probed { exists: false, is_dir: false });
    assert_eq!(run.request().map(|r| show(&r)), Some("remove /t/a false".to_string()));
    assert!(run.result().success);
    assert_eq!(run.result().freed_space, 0);
    run.reply(FsReply::Done);
    assert!(run.is_complete());
    run.reply(FsReply::Done);
    assert_eq!(run.result().freed_space, 5);
    let mut empty = Cleaner::clean(Vec::new());
    assert!(empty.is_complete());
    assert!(empty.request().is_none());
    empty.reply(FsReply::Done);
    assert!(empty.result().success);
}

#[test]
fn process_items_accounts_for_each_outcome() {
    let items = vec![
        item("/p/a", EntryKind::File, Some(5)),
        item("/p/b", EntryKind::File, Some(7)),
        item("/p/c", EntryKind::File, None),
        item("/p/d", EntryKind::File, Some(11)),
        item("/p/e", EntryKind::File, Some(13)),
    ];
    let outcomes = vec![Ok(true), Ok(false), Ok(true), Err("denied".to_string())];
    let result = Cleaner::process_items(&items, &outcomes);
    assert!(!result.success);
    assert_eq!(result.freed_space, 5);
    assert_eq!(result.errors, vec!["/p/d: denied".to_string()]);
    let result = Cleaner::process_items(&items, &vec![Ok(true), Ok(true)]);
    assert!(result.success);
    assert_eq!(result.freed_space, 12);
    let big = vec![
        item("/p/a", EntryKind::File, Some(u64::MAX)),
        item("/p/b", EntryKind::File, Some(7)),
    ];
    assert_eq!(Cleaner::process_items(&big, &vec![Ok(true), Ok(true)]).freed_space, u64::MAX);
    assert_eq!(Cleaner::format_item_error("/a b", "no: way"), "/a b: no: way");
}

#[test]
fn dry_run_counts_correctly() {
    // Two files and one subdirectory that holds one file.
    let root = "/tmp/vac-dryrun-q";
    let walk = vec![
        walked(root, NodeKind::Directory, Some(4096)),
        walked("/tmp/vac-dryrun-q/a.txt", NodeKind::File, Some(5)),
        walked("/tmp/vac-dryrun-q/b.txt", NodeKind::File, Some(10)),
        walked("/tmp/vac-dryrun-q/sub", NodeKind::Directory, Some(4096)),
        walked("/tmp/vac-dryrun-q/sub/c.txt", NodeKind::File, Some(5)),
    ];
    let dir_item = CleanableEntry {
        kind: EntryKind::Directory,
        category: None,
        path: root.to_string(),
        name: "test".to_string(),
        size: Some(20),
        modified_at: None,
    };
    let probe = ContentProbe { exists: true, is_file: false, size: None };
    let counts = vec![Cleaner::count_path_contents(probe, &walk, root)];

    let result = Cleaner::dry_run(&vec![dir_item], &counts);

    assert_eq!(result.total_files, 3);
    assert_eq!(result.total_dirs, 1);
    assert_eq!(result.total_size, 20);
    assert_eq!(result.items.len(), 1);
    assert_eq!(result.items[0].file_count, 3);
    assert_eq!(result.items[0].dir_count, 1);
}

#[test]
fn dry_run_leaves_the_root_out_of_the_directories() {
    let walk = vec![
        walked("/t/d", NodeKind::Directory, None),
        walked("/t/d/b", NodeKind::File, Some(5)),
    ];
    let probe = ContentProbe { exists: true, is_file: false, size: None };
    let count = Cleaner::count_path_contents(probe, &walk, "/t/d");
    assert_eq!(count, ContentCount { file_count: 1, dir_count: 0, size: 5 });
    let result = Cleaner::dry_run(&vec![item("/t/d", EntryKind::Directory, None)], &vec![count]);
    assert_eq!(result.total_files, 1);
    assert_eq!(result.total_dirs, 0);
    assert_eq!(result.total_size, 5);
    assert_eq!(result.items[0].path, "/t/d");
    assert_eq!(result.items[0].size, 5);
}

#[test]
fn content_of_files_missing_paths_and_odd_entries() {
    let none = Vec::new();
    let missing = ContentProbe { exists: false, is_file: false, size: None };
    assert_eq!(
        Cleaner::count_path_contents(missing, &none, "/x"),
        ContentCount { file_count: 0, dir_count: 0, size: 0 }
    );
    let file = ContentProbe { exists: true, is_file: true, size: Some(42) };
    assert_eq!(
        Cleaner::count_path_contents(file, &none, "/x"),
        ContentCount { file_count: 1, dir_count: 0, size: 42 }
    );
    let unread = ContentProbe { exists: true, is_file: true, size: None };
    assert_eq!(
        Cleaner::count_path_contents(unread, &none, "/x"),
        ContentCount { file_count: 1, dir_count: 0, size: 0 }
    );
    let walk = vec![
        walked("/x", NodeKind::Directory, None),
        walked("/x/link", NodeKind::Other, Some(9)),
        walked("", NodeKind::Unreadable, None),
        walked("/x/f", NodeKind::File, None),
        walked("/x/g", NodeKind::File, Some(3)),
        walked("/x/d", NodeKind::Directory, Some(100)),
    ];
    let dir = ContentProbe { exists: true, is_file: false, size: None };
    assert_eq!(
        Cleaner::count_path_contents(dir, &walk, "/x"),
        ContentCount { file_count: 2, dir_count: 1, size: 3 }
    );
}

#[test]
fn dry_run_pairs_items_with_counts() {
    let items = vec![
        item("/a", EntryKind::File, None),
        item("/b", EntryKind::File, None),
        item("/c", EntryKind::File, None),
    ];
    let counts = vec![
        ContentCount { file_count: 1, dir_count: 2, size: 3 },
        ContentCount { file_count: 10, dir_count: 20, size: 30 },
    ];
    let result = Cleaner::dry_run(&items, &counts);
    assert_eq!(result.items.len(), 2);
    assert_eq!(result.total_files, 11);
    assert_eq!(result.total_dirs, 22);
    assert_eq!(result.total_size, 33);
    assert_eq!(result.items[1].path, "/b");
    assert_eq!(result.items[1].file_count, 10);
    let result = Cleaner::dry_run(&Vec::new(), &counts);
    assert_eq!(result.total_size, 0);
    assert!(result.items.is_empty());
}

#[test]
fn clean_frees_what_dry_run_reported() {
    let items = vec![
        item("/t/a", EntryKind::File, Some(5)),
        item("/t/d", EntryKind::Directory, Some(5)),
        item("/t/gone", EntryKind::File, Some(0)),
    ];
    let dir_walk = vec![
        walked("/t/d", NodeKind::Directory, None),
        walked("/t/d/b", NodeKind::File, Some(5)),
        walked("/t/d/sub", NodeKind::Directory, None),
    ];
    let none = Vec::new();
    let counts = vec![
        Cleaner::count_path_contents(
            ContentProbe { exists: true, is_file: true, size: Some(5) },
            &none,
            "/t/a",
        ),
        Cleaner::count_path_contents(
            ContentProbe { exists: true, is_file: false, size: None },
            &dir_walk,
            "/t/d",
        ),
        Cleaner::count_path_contents(
            ContentProbe { exists: false, is_file: false, size: None },
            &none,
            "/t/gone",
        ),
    ];
    let preview = Cleaner::dry_run(&items, &counts);
    assert_eq!(preview.total_size, 10);
    let mut run = Cleaner::clean(items.clone());
    drive(&mut run);
    assert_eq!(run.result().freed_space, preview.total_size);
    let mut run = Cleaner::trash_items(items);
    drive(&mut run);
    assert_eq!(run.result().freed_space, preview.total_size);
}

#[test]
fn trash_lies_below_home_and_is_emptied_entry_by_entry() {
    assert_eq!(Cleaner::trash_path(Some("/home/fay")), Ok("/home/fay/.Trash".to_string()));
    assert_eq!(Cleaner::trash_path(None), Err("无法获取用户目录".to_string()));
    assert_eq!(Cleaner::empty_trash(&vec![4096, 10, 5], None), Ok(4111));
    assert_eq!(Cleaner::empty_trash(&Vec::new(), None), Ok(0));
    assert_eq!(Cleaner::empty_trash(&vec![u64::MAX, 2], None), Ok(u64::MAX));
    assert_eq!(
        Cleaner::empty_trash(&vec![4096, 10], Some("denied".to_string())),
        Err("denied".to_string())
    );
}
