use vac::app::{CleanableEntry, EntryKind, SortOrder};
use vac::cleaner::{CleanResult, Cleaner, ContentCount};
use vac::report::{
    build_report, format_time_cli, report_clean, report_dry_run, report_entry, report_lines,
    ScanCollector,
};
use vac::scanner::{format_size, ScanMessage};
use vac::sorting::{precedes, sort_entries};

fn entry(name: &str, kind: EntryKind, size: Option<u64>, modified_at: Option<u64>) -> CleanableEntry {
    CleanableEntry {
        kind,
        category: None,
        path: format!("/r/{name}"),
        name: name.to_string(),
        size,
        modified_at,
    }
}

fn names(entries: &[CleanableEntry]) -> Vec<&str> {
    entries.iter().map(|e| e.name.as_str()).collect()
}

#[test]
fn collector_gathers_the_entries_of_its_job() {
    let mut collector = ScanCollector::new(1);
    assert!(!collector.take(ScanMessage::Progress {
        job_id: 1,
        progress: 0,
        path: "/r".to_string()
    }));
    collector.take(ScanMessage::RootItem {
        job_id: 1,
        entry: entry("d", EntryKind::Directory, None, None),
    });
    collector.take(ScanMessage::DirEntry {
        job_id: 1,
        entry: entry("f", EntryKind::File, Some(3), None),
    });
    collector.take(ScanMessage::RootItem {
        job_id: 2,
        entry: entry("stale", EntryKind::File, Some(3), None),
    });
    collector.take(ScanMessage::DirEntrySize { job_id: 1, path: "/r/d".to_string(), size: 40 });
    collector.take(ScanMessage::DirEntrySize { job_id: 1, path: "/r/d".to_string(), size: 41 });
    collector.take(ScanMessage::DirEntrySize { job_id: 1, path: "/r/f".to_string(), size: 42 });
    assert!(!collector.take(ScanMessage::Done { job_id: 2 }));
    assert!(collector.take(ScanMessage::Done { job_id: 1 }));
    assert!(collector.take(ScanMessage::RootItem {
        job_id: 1,
        entry: entry("late", EntryKind::File, Some(3), None),
    }));
    let entries = collector.finish().unwrap();
    assert_eq!(names(&entries), vec!["d", "f"]);
    assert_eq!(entries[0].size, Some(40));
    assert_eq!(entries[1].size, Some(3));
}

#[test]
fn collector_hands_on_the_error_of_a_failed_scan() {
    let mut collector = ScanCollector::new(1);
    collector.take(ScanMessage::RootItem {
        job_id: 1,
        entry: entry("d", EntryKind::Directory, None, None),
    });
    assert!(collector.take(ScanMessage::Error { job_id: 1, message: "路径不存在: /x".to_string() }));
    assert!(collector.take(ScanMessage::Done { job_id: 1 }));
    assert_eq!(collector.finish().err(), Some("扫描失败: 路径不存在: /x".to_string()));
}

#[test]
fn entries_sort_by_name_size_and_time() {
    let mut entries = vec![
        entry("b", EntryKind::File, Some(10), Some(300)),
        entry("z", EntryKind::Directory, None, None),
        entry("a", EntryKind::File, Some(10), Some(100)),
        entry("B", EntryKind::File, Some(99), Some(300)),
        entry("c", EntryKind::Directory, Some(5), Some(200)),
        entry("", EntryKind::File, Some(0), Some(0)),
        entry("ab", EntryKind::File, None, None),
    ];
    sort_entries(&mut entries, &SortOrder::ByName);
    assert_eq!(names(&entries), vec!["c", "z", "", "B", "a", "ab", "b"]);
    sort_entries(&mut entries, &SortOrder::BySize);
    assert_eq!(names(&entries), vec!["B", "a", "b", "c", "z", "", "ab"]);
    sort_entries(&mut entries, &SortOrder::ByTime);
    assert_eq!(names(&entries), vec!["B", "b", "c", "a", "", "z", "ab"]);
    let mut none: Vec<CleanableEntry> = Vec::new();
    sort_entries(&mut none, &SortOrder::ByName);
    assert!(none.is_empty());
}

#[test]
fn order_of_two_entries() {
    let dir = entry("z", EntryKind::Directory, Some(1), Some(1));
    let file = entry("a", EntryKind::File, Some(2), None);
    assert!(precedes(SortOrder::ByName, &dir, &file));
    assert!(!precedes(SortOrder::ByName, &file, &dir));
    assert!(!precedes(SortOrder::ByName, &file, &file));
    assert!(precedes(SortOrder::BySize, &file, &dir));
    assert!(precedes(SortOrder::ByTime, &dir, &file));
    assert!(!precedes(SortOrder::ByTime, &file, &dir));
    let e_acute = entry("é", EntryKind::File, None, None);
    let z = entry("z", EntryKind::File, None, None);
    let prefix = entry("ab", EntryKind::File, None, None);
    let longer = entry("abc", EntryKind::File, None, None);
    assert!(precedes(SortOrder::ByName, &z, &e_acute));
    assert!(precedes(SortOrder::ByName, &prefix, &longer));
    assert!(!precedes(SortOrder::ByName, &longer, &prefix));
}

#[test]
fn report_shows_entries_dry_run_and_deletion() {
    let entries = vec![
        entry("cache", EntryKind::Directory, Some(2048), Some(86_400 + 3_661)),
        entry("note.txt", EntryKind::File, None, None),
    ];
    let shown = report_entry(&entries[0]);
    assert_eq!(shown.path, "/r/cache");
    assert_eq!(shown.name, "cache");
    assert_eq!(shown.kind, "directory");
    assert_eq!(shown.size, Some(2048));
    assert_eq!(shown.size_display, format_size(2048));
    assert_eq!(shown.modified_at, Some("1970-01-02 01:01:01".to_string()));
    let shown = report_entry(&entries[1]);
    assert_eq!(shown.kind, "file");
    assert_eq!(shown.size_display, "未知");
    assert_eq!(shown.modified_at, None);
    assert_eq!(format_time_cli(0), "1970-01-01 00:00:00");

    let counts = vec![
        ContentCount { file_count: 12, dir_count: 3, size: 2048 },
        ContentCount { file_count: 1, dir_count: 0, size: 0 },
    ];
    let dry = report_dry_run(&Cleaner::dry_run(&entries, &counts));
    assert_eq!(dry.total_files, 13);
    assert_eq!(dry.total_dirs, 3);
    assert_eq!(dry.total_size, 2048);
    assert_eq!(dry.total_size_display, format_size(2048));
    assert_eq!(dry.items.len(), 2);
    assert_eq!(dry.items[0].path, "/r/cache");
    assert_eq!(dry.items[0].size_display, format_size(2048));
    let clean = report_clean(
        CleanResult { success: false, freed_space: 7, errors: vec!["/r/x: busy".to_string()] },
        2,
        true,
    );
    assert!(!clean.success);
    assert_eq!(clean.freed_space_display, format_size(7));
    assert_eq!(clean.item_count, 2);
    assert!(clean.use_trash);

    let report =
        build_report("preset".to_string(), "size".to_string(), &entries, Some(dry), Some(clean));
    assert_eq!(report.scan_target, "preset");
    assert_eq!(report.sort_order, "size");
    assert_eq!(report.total_items, 2);
    assert_eq!(report.total_size, 2048);
    assert_eq!(report.total_size_display, format_size(2048));
    assert_eq!(report.entries.len(), 2);
    assert_eq!(report.entries[1].name, "note.txt");

    let rule = "─".repeat(70);
    let lines = report_lines(&report, &entries, true);
    assert_eq!(
        lines,
        vec![
            String::new(),
            format!("扫描结果: 2 个项目 | 总大小: {}", format_size(2048)),
            rule.clone(),
            format!("  📁 {:>10}  cache  1970-01-02 01:01:01", format_size(2048)),
            format!("  📄 {:>10}  note.txt", "未知"),
            rule.clone(),
            String::new(),
            "Dry-run 预览:".to_string(),
            format!("  总计: 13 个文件 / 3 个目录 / {}", format_size(2048)),
            format!("  • /r/cache — 12 文件 / 3 目录 / {}", format_size(2048)),
            format!("  • /r/note.txt — 1 文件 / 0 目录 / {}", format_size(0)),
            String::new(),
            "清理部分失败:".to_string(),
            "  ✗ /r/x: busy".to_string(),
            String::new(),
        ]
    );
}

#[test]
fn report_of_a_deletion_without_failure() {
    let entries = vec![entry("a", EntryKind::File, Some(5), None)];
    let done = CleanResult { success: true, freed_space: 5, errors: Vec::new() };
    let report = build_report(
        "/r".to_string(),
        "name".to_string(),
        &entries,
        None,
        Some(report_clean(done, 1, false)),
    );
    let lines = report_lines(&report, &entries, false);
    assert_eq!(lines.len(), 8);
    assert_eq!(lines[5], "");
    assert_eq!(lines[6], format!("已删除: {} (1 个项目)", format_size(5)));
    let done = CleanResult { success: true, freed_space: 5, errors: Vec::new() };
    let report = build_report(
        "/r".to_string(),
        "name".to_string(),
        &entries,
        None,
        Some(report_clean(done, 10, true)),
    );
    let lines = report_lines(&report, &entries, true);
    assert_eq!(lines[6], format!("移至回收站: {} (10 个项目)", format_size(5)));
    let report = build_report("/r".to_string(), "name".to_string(), &Vec::new(), None, None);
    let lines = report_lines(&report, &Vec::new(), false);
    assert_eq!(lines.len(), 5);
    assert_eq!(lines[1], format!("扫描结果: 0 个项目 | 总大小: {}", format_size(0)));
}
