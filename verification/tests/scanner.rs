use vac::app::{EntryKind, ItemCategory};
use vac::dir_scan::{DirChild, DirScan, DirScanEvent, PathProbe, ScanPhase};
use vac::job::CancelToken;
use vac::preset_scan::{Measurement, PresetEvent, PresetPhase, PresetScan};
use vac::scanner::{format_size, progress_percent, ScanKind, ScanMessage, Scanner};
use vac::walk::{calc_dir_size, DirSizer, NodeKind, WalkEntry};

fn walked(path: &str, kind: NodeKind, size: Option<u64>) -> WalkEntry {
    WalkEntry { path: path.to_string(), kind, size }
}

fn dir_child(path: &str, kind: NodeKind, size: Option<u64>) -> DirChild {
    DirChild {
        path: path.to_string(),
        name: path.rsplit('/').next().unwrap_or("").to_string(),
        kind,
        size,
        modified_at: Some(1_000),
    }
}

fn show(message: &ScanMessage) -> String {
    match message {
        ScanMessage::Progress { job_id, progress, path } => {
            format!("{job_id} progress {progress} {path}")
        }
        ScanMessage::RootItem { job_id, entry } => {
            format!("{job_id} root {} {:?} {:?}", entry.path, entry.kind, entry.size)
        }
        ScanMessage::DirEntry { job_id, entry } => {
            format!("{job_id} entry {} {:?} {:?}", entry.path, entry.kind, entry.size)
        }
        ScanMessage::DirEntrySize { job_id, path, size } => format!("{job_id} size {path} {size}"),
        ScanMessage::Done { job_id } => format!("{job_id} done"),
        ScanMessage::Error { job_id, message } => format!("{job_id} error {message}"),
    }
}

fn shown(messages: &[ScanMessage]) -> Vec<String> {
    messages.iter().map(show).collect()
}

fn scanner() -> Scanner {
    Scanner::with_home("/home/gil".to_string(), Vec::new())
}

#[test]
fn scan_directory_returns_zero_for_missing_path() {
    // The walk of a path that does not exist yields one unreadable entry.
    let scanner = scanner();
    let walk = vec![walked("/tmp/path-does-not-exist", NodeKind::Unreadable, None)];
    let size = scanner.scan_directory(&walk);
    assert_eq!(size, 0);
    assert_eq!(scanner.scan_directory(&Vec::new()), 0);
}

#[test]
fn scan_directory_sums_file_sizes() {
    let scanner = scanner();
    let walk = vec![
        walked("/tmp/vac-scan-x", NodeKind::Directory, Some(4096)),
        walked("/tmp/vac-scan-x/a.txt", NodeKind::File, Some(5)),
        walked("/tmp/vac-scan-x/sub", NodeKind::Directory, Some(4096)),
        walked("/tmp/vac-scan-x/sub/b.bin", NodeKind::File, Some(10)),
    ];
    let size = scanner.scan_directory(&walk);
    assert_eq!(size, 15);
}

#[test]
fn scan_dir_listing_emits_entries_and_sizes() {
    let scanner = scanner();
    let token = CancelToken::new(1);
    let mut scan = scanner.scan_dir_listing(1, "/tmp/vac-list-x".to_string(), token.is_current(1));
    let mut messages = Vec::new();
    messages.extend(scan.step(DirScanEvent::ListingOpened { total: 2 }, token.is_current(1)));
    messages.extend(scan.step(
        DirScanEvent::Child { child: dir_child("/tmp/vac-list-x/file.txt", NodeKind::File, Some(5)) },
        token.is_current(1),
    ));
    messages.extend(scan.step(
        DirScanEvent::Child {
            child: dir_child("/tmp/vac-list-x/folder", NodeKind::Directory, Some(4096)),
        },
        token.is_current(1),
    ));
    messages.extend(scan.step(DirScanEvent::ListingDone, token.is_current(1)));
    assert_eq!(scan.pending_dirs(), &vec!["/tmp/vac-list-x/folder".to_string()]);
    let walk = vec![
        walked("/tmp/vac-list-x/folder", NodeKind::Directory, Some(4096)),
        walked("/tmp/vac-list-x/folder/nested.txt", NodeKind::File, Some(5)),
    ];
    let size = calc_dir_size(&walk);
    messages.extend(scan.step(
        DirScanEvent::DirSized { path: "/tmp/vac-list-x/folder".to_string(), size },
        token.is_current(1),
    ));
    messages.extend(scan.step(DirScanEvent::SizingDone, token.is_current(1)));

    let mut saw_dir = false;
    let mut saw_dir_size = false;
    for msg in &messages {
        match msg {
            ScanMessage::DirEntry { entry, .. } => {
                if entry.kind == EntryKind::Directory {
                    saw_dir = true;
                }
            }
            ScanMessage::DirEntrySize { path, size, .. } => {
                if path == "/tmp/vac-list-x/folder" && *size > 0 {
                    saw_dir_size = true;
                }
            }
            ScanMessage::Done { .. } => break,
            _ => {}
        }
    }
    assert!(saw_dir);
    assert!(saw_dir_size);
    assert_eq!(
        shown(&messages),
        vec![
            "1 entry /tmp/vac-list-x/file.txt File Some(5)",
            "1 entry /tmp/vac-list-x/folder Directory None",
            "1 size /tmp/vac-list-x/folder 5",
            "1 done",
        ]
    );
    assert_eq!(scan.phase(), ScanPhase::Finished);
    assert_eq!(scan.job_id(), 1);
}

#[test]
fn scan_dir_listing_respects_cancel_generation() {
    let scanner = scanner();
    let cancel_gen = CancelToken::new(2);

    let mut scan =
        scanner.scan_dir_listing(1, "/tmp/vac-cancel-x".to_string(), cancel_gen.is_current(1));
    assert_eq!(scan.phase(), ScanPhase::Stopped);
    let mut messages = Vec::new();
    messages.extend(scan.step(DirScanEvent::ListingOpened { total: 0 }, cancel_gen.is_current(1)));
    messages.extend(scan.step(DirScanEvent::ListingDone, cancel_gen.is_current(1)));
    messages.extend(scan.step(DirScanEvent::SizingDone, cancel_gen.is_current(1)));

    assert!(messages.is_empty());
}

#[test]
fn token_follows_what_is_published() {
    let token = CancelToken::new(7);
    let worker = token.share();
    assert!(worker.is_current(7));
    assert!(!worker.is_current(8));
    token.publish(8);
    assert!(worker.is_current(8));
    assert!(!worker.is_current(7));
}

#[test]
fn listing_that_cannot_be_opened_ends_with_an_error() {
    let mut scan = DirScan::start_listing(3, "/root/secret".to_string(), true);
    assert_eq!(scan.phase(), ScanPhase::Opening);
    let messages =
        scan.step(DirScanEvent::ListingFailed { error: "Permission denied".to_string() }, true);
    assert_eq!(shown(&messages), vec!["3 error 无法读取目录 /root/secret: Permission denied"]);
    assert_eq!(scan.phase(), ScanPhase::Finished);
    assert!(scan.step(DirScanEvent::SizingDone, true).is_empty());
    assert!(scan
        .step(DirScanEvent::Child { child: dir_child("/x", NodeKind::File, None) }, true)
        .is_empty());
}

#[test]
fn nothing_follows_the_terminal_message() {
    let mut scan = DirScan::start_listing(4, "/d".to_string(), true);
    let mut all = Vec::new();
    all.extend(scan.step(DirScanEvent::ListingOpened { total: 0 }, true));
    all.extend(scan.step(DirScanEvent::ListingDone, true));
    all.extend(scan.step(DirScanEvent::SizingDone, true));
    all.extend(scan.step(DirScanEvent::SizingDone, true));
    all.extend(scan.step(DirScanEvent::DirSized { path: "/d/x".to_string(), size: 1 }, true));
    all.extend(scan.step(DirScanEvent::ListingFailed { error: "late".to_string() }, true));
    assert_eq!(shown(&all), vec!["4 done"]);
    let terminal = all.iter().filter(|m| m.is_terminal()).count();
    assert_eq!(terminal, 1);
    assert!(all.last().unwrap().is_terminal());
    assert!(all.iter().all(|m| m.job_id() == 4));
}

#[test]
fn superseded_scan_stops_without_terminal_message() {
    let mut scan = DirScan::start_listing(5, "/d".to_string(), true);
    let mut all = Vec::new();
    all.extend(scan.step(DirScanEvent::ListingOpened { total: 3 }, true));
    all.extend(scan.step(
        DirScanEvent::Child { child: dir_child("/d/a", NodeKind::File, Some(1)) },
        true,
    ));
    all.extend(scan.step(
        DirScanEvent::Child { child: dir_child("/d/b", NodeKind::File, Some(1)) },
        false,
    ));
    assert_eq!(scan.phase(), ScanPhase::Stopped);
    all.extend(scan.step(
        DirScanEvent::Child { child: dir_child("/d/c", NodeKind::File, Some(1)) },
        true,
    ));
    all.extend(scan.step(DirScanEvent::ListingDone, true));
    all.extend(scan.step(DirScanEvent::SizingDone, true));
    assert_eq!(shown(&all), vec!["5 entry /d/a File Some(1)"]);
}

#[test]
fn events_out_of_phase_are_ignored() {
    let mut scan = DirScan::start_listing(6, "/d".to_string(), true);
    assert!(scan
        .step(DirScanEvent::Child { child: dir_child("/d/a", NodeKind::File, None) }, true)
        .is_empty());
    assert!(scan.step(DirScanEvent::SizingDone, true).is_empty());
    assert!(scan.step(DirScanEvent::ListingDone, true).is_empty());
    assert_eq!(scan.phase(), ScanPhase::Opening);
    scan.step(DirScanEvent::ListingOpened { total: 1 }, true);
    assert_eq!(scan.phase(), ScanPhase::Listing);
    assert!(scan.step(DirScanEvent::DirSized { path: "/d/a".to_string(), size: 1 }, true).is_empty());
    assert!(scan.step(DirScanEvent::ListingOpened { total: 9 }, true).is_empty());
    assert_eq!(scan.phase(), ScanPhase::Listing);
}

#[test]
fn disk_scan_validates_its_path() {
    let scanner = scanner();
    let missing = PathProbe { exists: false, is_dir: false };
    let (scan, first) = scanner.scan_disk_with_progress(8, "/nowhere".to_string(), missing, true);
    assert_eq!(shown(&first), vec!["8 error 路径不存在: /nowhere"]);
    assert_eq!(scan.phase(), ScanPhase::Finished);
    let file = PathProbe { exists: true, is_dir: false };
    let (mut scan, first) = scanner.scan_disk_with_progress(8, "/etc/hosts".to_string(), file, true);
    assert_eq!(shown(&first), vec!["8 error 不是目录: /etc/hosts"]);
    assert!(scan.step(DirScanEvent::ListingOpened { total: 1 }, true).is_empty());
    let dir = PathProbe { exists: true, is_dir: true };
    let (scan, first) = scanner.scan_disk_with_progress(8, "/data".to_string(), dir, false);
    assert!(first.is_empty());
    assert_eq!(scan.phase(), ScanPhase::Stopped);
}

#[test]
fn disk_scan_reports_progress_in_two_halves() {
    let dir = PathProbe { exists: true, is_dir: true };
    let (mut scan, first) = DirScan::start_disk(9, "/data".to_string(), dir, true);
    let mut all = first;
    all.extend(scan.step(DirScanEvent::ListingOpened { total: 4 }, true));
    all.extend(scan.step(
        DirScanEvent::Child { child: dir_child("/data/a", NodeKind::Directory, None) },
        true,
    ));
    all.extend(scan.step(
        DirScanEvent::Child { child: dir_child("/data/b", NodeKind::File, Some(7)) },
        true,
    ));
    all.extend(scan.step(
        DirScanEvent::Child { child: dir_child("/data/c", NodeKind::Other, Some(1)) },
        true,
    ));
    all.extend(scan.step(
        DirScanEvent::Child { child: dir_child("/data/d", NodeKind::Unreadable, None) },
        true,
    ));
    all.extend(scan.step(DirScanEvent::ListingDone, true));
    all.extend(scan.step(DirScanEvent::DirSized { path: "/data/a".to_string(), size: 0 }, true));
    all.extend(scan.step(DirScanEvent::SizingDone, true));
    assert_eq!(
        shown(&all),
        vec![
            "9 progress 0 /data",
            "9 progress 0 /data/a",
            "9 root /data/a Directory None",
            "9 progress 12 /data/b",
            "9 root /data/b File Some(7)",
            "9 progress 25 /data/c",
            "9 progress 37 /data/d",
            "9 progress 50 并行计算目录大小...",
            "9 size /data/a 0",
            "9 done",
        ]
    );
    assert_eq!(scan.pending_dirs(), &vec!["/data/a".to_string()]);
    match &all[4] {
        ScanMessage::RootItem { entry, .. } => {
            assert_eq!(entry.name, "b");
            assert_eq!(entry.modified_at, Some(1_000));
            assert!(entry.category.is_none());
        }
        _ => panic!("expected a root item"),
    }
}

#[test]
fn progress_is_rounded_down_and_bounded() {
    assert_eq!(progress_percent(0, 3, 100), 0);
    assert_eq!(progress_percent(1, 3, 100), 33);
    assert_eq!(progress_percent(2, 3, 100), 66);
    assert_eq!(progress_percent(3, 3, 100), 100);
    assert_eq!(progress_percent(1, 3, 50), 16);
    assert_eq!(progress_percent(0, 0, 100), 0);
    assert_eq!(progress_percent(1, 0, 100), 100);
    assert_eq!(progress_percent(7, 2, 50), 50);
    assert_eq!(progress_percent(usize::MAX, usize::MAX, 100), 100);
    assert_eq!(progress_percent(usize::MAX - 1, usize::MAX, 100), 99);
}

#[test]
fn catalog_lists_builtin_locations_then_configured_ones() {
    let scanner = Scanner::with_home(
        "/Users/hal".to_string(),
        vec!["/opt/cache".to_string(), "/srv/tmp".to_string()],
    );
    assert_eq!(scanner.home_dir(), "/Users/hal");
    let candidates = scanner.candidate_targets();
    let listed: Vec<(ItemCategory, &str, bool)> =
        candidates.iter().map(|c| (c.category, c.path.as_str(), c.conditional)).collect();
    assert_eq!(
        listed,
        vec![
            (ItemCategory::SystemCache, "/Users/hal/Library/Caches", false),
            (ItemCategory::Logs, "/Users/hal/Library/Logs", false),
            (ItemCategory::Temp, "/tmp", false),
            (ItemCategory::Temp, "/var/tmp", false),
            (ItemCategory::Downloads, "/Users/hal/Downloads", false),
            (ItemCategory::Trash, "/Users/hal/.Trash", false),
            (
                ItemCategory::XcodeDerivedData,
                "/Users/hal/Library/Developer/Xcode/DerivedData",
                true
            ),
            (ItemCategory::HomebrewCache, "/Users/hal/Library/Caches/Homebrew", true),
            (ItemCategory::CocoaPods, "/Users/hal/Library/Caches/CocoaPods", true),
            (ItemCategory::NpmCache, "/Users/hal/.npm/_cacache", true),
            (ItemCategory::PipCache, "/Users/hal/Library/Caches/pip", true),
            (
                ItemCategory::DockerData,
                "/Users/hal/Library/Containers/com.docker.docker/Data",
                true
            ),
            (ItemCategory::CargoCache, "/Users/hal/.cargo/registry/cache", true),
            (ItemCategory::Custom, "/opt/cache", true),
            (ItemCategory::Custom, "/srv/tmp", true),
        ]
    );
}

#[test]
fn scan_targets_keep_what_is_present() {
    let scanner = Scanner::with_home("/Users/hal/".to_string(), vec!["/opt/cache".to_string()]);
    let mut present = vec![false; 14];
    present[9] = true;
    present[13] = true;
    let targets = scanner.get_scan_targets(&present);
    let paths: Vec<&str> = targets.iter().map(|t| t.1.as_str()).collect();
    assert_eq!(
        paths,
        vec![
            "/Users/hal/Library/Caches",
            "/Users/hal/Library/Logs",
            "/tmp",
            "/var/tmp",
            "/Users/hal/Downloads",
            "/Users/hal/.Trash",
            "/Users/hal/.npm/_cacache",
            "/opt/cache",
        ]
    );
    assert_eq!(targets[6].0, ItemCategory::NpmCache);
    assert_eq!(targets[7].0, ItemCategory::Custom);
    assert_eq!(scanner.get_scan_targets(&Vec::new()).len(), 6);
    assert_eq!(scanner.get_scan_targets(&vec![true; 14]).len(), 14);
}

#[test]
fn preset_scan_announces_measures_and_reports() {
    let scanner = Scanner::with_home("/home/ida".to_string(), Vec::new());
    let mut scan = scanner.scan_root_with_progress(2, &Vec::new(), true);
    assert_eq!(scan.job_id(), 2);
    let sizes: Vec<Option<(u64, Option<u64>)>> =
        vec![Some((300, Some(9))), None, Some((0, None)), Some((5, None)), None, Some((1, None))];
    let mut all = Vec::new();
    for measured in sizes {
        all.extend(scan.step(PresetEvent::Next, true));
        assert_eq!(scan.phase(), PresetPhase::Measuring);
        assert!(scan.awaited().is_some());
        let measurement = match measured {
            Some((size, modified_at)) => Measurement { exists: true, size, modified_at },
            None => Measurement { exists: false, size: 99, modified_at: None },
        };
        all.extend(scan.step(PresetEvent::Measured(measurement), true));
        assert!(scan.awaited().is_none());
    }
    all.extend(scan.step(PresetEvent::Next, true));
    assert_eq!(scan.phase(), PresetPhase::Finished);
    all.extend(scan.step(PresetEvent::Next, true));
    assert_eq!(
        shown(&all),
        vec![
            "2 progress 0 /home/ida/Library/Caches",
            "2 root /home/ida/Library/Caches Directory Some(300)",
            "2 progress 16 /home/ida/Library/Logs",
            "2 progress 33 /tmp",
            "2 progress 50 /var/tmp",
            "2 root /var/tmp Directory Some(5)",
            "2 progress 66 /home/ida/Downloads",
            "2 progress 83 /home/ida/.Trash",
            "2 root /home/ida/.Trash Directory Some(1)",
            "2 done",
        ]
    );
    match &all[1] {
        ScanMessage::RootItem { entry, .. } => {
            assert_eq!(entry.name, "系统缓存");
            assert_eq!(entry.category, Some(ItemCategory::SystemCache));
            assert_eq!(entry.modified_at, Some(9));
        }
        _ => panic!("expected a root item"),
    }
}

#[test]
fn preset_scan_stops_when_superseded() {
    let targets = vec![(ItemCategory::Temp, "/tmp".to_string())];
    let mut scan = PresetScan::start(3, targets.clone(), false);
    assert_eq!(scan.phase(), PresetPhase::Stopped);
    assert!(scan.step(PresetEvent::Next, true).is_empty());
    let mut scan = PresetScan::start(3, targets.clone(), true);
    assert_eq!(shown(&scan.step(PresetEvent::Next, true)), vec!["3 progress 0 /tmp"]);
    let measured = Measurement { exists: true, size: 10, modified_at: None };
    assert!(scan.step(PresetEvent::Measured(measured), false).is_empty());
    assert_eq!(scan.phase(), PresetPhase::Stopped);
    assert!(scan.step(PresetEvent::Next, true).is_empty());
    let mut scan = PresetScan::start(3, targets, true);
    assert!(scan.step(PresetEvent::Measured(measured), true).is_empty());
    assert_eq!(scan.phase(), PresetPhase::Announcing);
    let mut empty = PresetScan::start(4, Vec::new(), true);
    assert_eq!(shown(&empty.step(PresetEvent::Next, true)), vec!["4 done"]);
}

#[test]
fn sizer_sums_files_until_superseded() {
    let mut sizer = DirSizer::new(1);
    assert!(sizer.observe(&walked("/d", NodeKind::Directory, Some(4096)), true));
    assert!(sizer.observe(&walked("/d/a", NodeKind::File, Some(5)), true));
    assert!(sizer.observe(&walked("/d/l", NodeKind::Other, Some(50)), true));
    assert!(sizer.observe(&walked("/d/u", NodeKind::File, None), true));
    assert!(sizer.observe(&walked("", NodeKind::Unreadable, None), true));
    assert!(sizer.observe(&walked("/d/b", NodeKind::File, Some(10)), true));
    assert_eq!(sizer.total(), 15);
    assert!(!sizer.stopped());
    assert!(!sizer.observe(&walked("/d/c", NodeKind::File, Some(100)), false));
    assert!(sizer.stopped());
    assert!(!sizer.observe(&walked("/d/e", NodeKind::File, Some(100)), true));
    assert_eq!(sizer.total(), 15);
    let huge = vec![
        walked("/h/a", NodeKind::File, Some(u64::MAX - 1)),
        walked("/h/b", NodeKind::File, Some(5)),
    ];
    assert_eq!(calc_dir_size(&huge), u64::MAX);
}

#[test]
fn sizes_are_formatted_for_people() {
    let zero = format_size(0);
    let kib = format_size(1024);
    let big = format_size(1_500_000_000);
    assert!(zero.starts_with('0'));
    assert!(kib.starts_with("1.0"));
    assert_ne!(zero, kib);
    assert_ne!(kib, big);
    assert_ne!(kib, "1024");
    assert_eq!(format_size(1024), kib);
}

#[test]
fn messages_know_their_job_and_whether_they_end_it() {
    let done = ScanMessage::Done { job_id: 11 };
    let failed = ScanMessage::Error { job_id: 12, message: "x".to_string() };
    let progress = ScanMessage::Progress { job_id: 13, progress: 1, path: "/".to_string() };
    let sized = ScanMessage::DirEntrySize { job_id: 14, path: "/".to_string(), size: 1 };
    assert_eq!(done.job_id(), 11);
    assert_eq!(failed.job_id(), 12);
    assert_eq!(progress.job_id(), 13);
    assert_eq!(sized.clone().job_id(), 14);
    assert!(done.is_terminal());
    assert!(failed.is_terminal());
    assert!(!progress.is_terminal());
    assert!(!sized.is_terminal());
    assert_ne!(ScanKind::Root, ScanKind::ListDir);
    assert_ne!(ScanKind::ListDir, ScanKind::DiskScan);
}

#[test]
fn scanner_needs_a_home_directory() {
    assert!(Scanner::from_home(None, vec!["/opt/cache".to_string()]).is_none());
    let scanner = Scanner::from_home(Some("/home/kim".to_string()), vec!["/opt/cache".to_string()])
        .expect("a home directory was given");
    assert_eq!(scanner.home_dir(), "/home/kim");
    let candidates = scanner.candidate_targets();
    assert_eq!(candidates[0].path, "/home/kim/Library/Caches");
    assert_eq!(candidates.last().map(|c| c.path.as_str()), Some("/opt/cache"));
    // Whatever home directory the system names, the scanner is built on it.
    match (Scanner::new(), Scanner::with_extra_targets(vec!["/x".to_string()])) {
        (Some(plain), Some(extended)) => {
            assert_eq!(plain.home_dir(), extended.home_dir());
            assert_eq!(plain.candidate_targets().len() + 1, extended.candidate_targets().len());
        }
        (None, None) => {}
        _ => panic!("the two scanners disagree on the home directory"),
    }
}

#[test]
fn shared_token_is_the_same_token() {
    let token = CancelToken::new(3);
    let first = token.share();
    let second = first.share();
    second.publish(4);
    assert!(token.is_current(4));
    assert!(first.is_current(4));
    assert!(!token.is_current(3));
}
