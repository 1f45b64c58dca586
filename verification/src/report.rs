//! The report of a scan that runs without the interactive interface: what
//! was found, what a deletion would remove, and what a deletion did.

use vstd::prelude::*;
use vstd::string::*;
use crate::app::{CleanableEntry, EntryKind, EntryView, listed_bytes, sized, sum_sizes};
use crate::cleaner::{CleanResult, DryRunItem, DryRunResult, entry_views};
use crate::scanner::{MessageView, ScanMessage, byte_size_text, format_size};
use crate::sums::sat_u64;
use crate::text::{join2, push_char};
use crate::utils::{decimal, format_time, formatted_time};

verus! {

/// Gathers the entries that the messages of one scan job report.
pub struct ScanCollector {
    job_id: u64,
    entries: Vec<CleanableEntry>,
    ended: bool,
    failure: Option<String>,
}

/// The mathematical value of a [`ScanCollector`].
pub struct CollectorState {
    pub job_id: u64,
    /// The entries reported so far, in order.
    pub entries: Seq<EntryView>,
    /// Whether the terminal message was taken.
    pub ended: bool,
    /// The error the scan ended with, where it ended with one.
    pub failure: Option<Seq<char>>,
}

/// The text of the error for a scan that failed.
pub open spec fn scan_failed_text(message: Seq<char>) -> Seq<char> {
    "扫描失败: "@ + message
}

impl CollectorState {
    /// The state after a message. A message of another job is discarded,
    /// and so is every message after the terminal one. An entry is added at
    /// the end; a size goes to the first entry with its path that has none;
    /// progress changes nothing; `Done` and `Error` end the gathering.
    pub open spec fn after(self, msg: MessageView) -> CollectorState {
        if msg.job() != self.job_id || self.ended {
            self
        } else {
            match msg {
                MessageView::Progress { .. } => self,
                MessageView::RootItem { entry, .. } => CollectorState {
                    entries: self.entries.push(entry),
                    ..self
                },
                MessageView::DirEntry { entry, .. } => CollectorState {
                    entries: self.entries.push(entry),
                    ..self
                },
                MessageView::DirEntrySize { path, size, .. } => CollectorState {
                    entries: sized(self.entries, path, size),
                    ..self
                },
                MessageView::Done { .. } => CollectorState { ended: true, ..self },
                MessageView::Error { message, .. } => CollectorState {
                    ended: true,
                    failure: Some(message),
                    ..self
                },
            }
        }
    }
}

impl View for ScanCollector {
    type V = CollectorState;

    closed spec fn view(&self) -> CollectorState {
        CollectorState {
            job_id: self.job_id,
            entries: entry_views(self.entries@),
            ended: self.ended,
            failure: crate::app::opt_string_text(self.failure),
        }
    }
}

impl ScanCollector {
    /// A collector for job `job_id` that has gathered nothing.
    pub fn new(job_id: u64) -> (c: Self)
        ensures
            c@ == (CollectorState {
                job_id,
                entries: Seq::empty(),
                ended: false,
                failure: None,
            }),
    {
        let c = ScanCollector { job_id, entries: Vec::new(), ended: false, failure: None };
        assert(c@.entries =~= Seq::<EntryView>::empty());
        c
    }

    /// Takes one message, and returns whether the gathering has ended.
    pub fn take(&mut self, msg: ScanMessage) -> (ended: bool)
        ensures
            final(self)@ == old(self)@.after(msg@),
            ended == final(self)@.ended,
    {
        if msg.job_id() != self.job_id || self.ended {
            return self.ended;
        }
        let ghost before = self@.entries;
        match msg {
            ScanMessage::Progress { .. } => {},
            ScanMessage::RootItem { entry, .. } => {
                self.entries.push(entry);
                assert(self@.entries =~= before.push(entry@));
            },
            ScanMessage::DirEntry { entry, .. } => {
                self.entries.push(entry);
                assert(self@.entries =~= before.push(entry@));
            },
            ScanMessage::DirEntrySize { path, size, .. } => {
                crate::app::fill_entry_size(&mut self.entries, path.as_str(), size);
            },
            ScanMessage::Done { .. } => {
                self.ended = true;
            },
            ScanMessage::Error { message, .. } => {
                self.ended = true;
                self.failure = Some(message);
            },
        }
        self.ended
    }

    /// Hands over what was gathered: the entries, or the error of a scan
    /// that failed.
    pub fn finish(self) -> (r: Result<Vec<CleanableEntry>, String>)
        ensures
            match r {
                Ok(entries) => self@.failure is None && entry_views(entries@) == self@.entries,
                Err(text) => self@.failure is Some && text@ == scan_failed_text(
                    self@.failure.unwrap(),
                ),
            },
    {
        match self.failure {
            Some(message) => Err(join2("扫描失败: ", message.as_str())),
            None => Ok(self.entries),
        }
    }
}

/// One entry of the report.
#[derive(Debug)]
pub struct ReportEntry {
    pub path: String,
    pub name: String,
    pub kind: String,
    pub size: Option<u64>,
    pub size_display: String,
    pub modified_at: Option<String>,
}

/// What a deletion of one item would remove, for the report.
#[derive(Debug)]
pub struct DryRunReportItem {
    pub path: String,
    pub file_count: usize,
    pub dir_count: usize,
    pub size: u64,
    pub size_display: String,
}

/// What a deletion would remove, for the report.
#[derive(Debug)]
pub struct DryRunReport {
    pub total_files: usize,
    pub total_dirs: usize,
    pub total_size: u64,
    pub total_size_display: String,
    pub items: Vec<DryRunReportItem>,
}

/// What a deletion did, for the report.
#[derive(Debug)]
pub struct CleanReport {
    pub success: bool,
    pub freed_space: u64,
    pub freed_space_display: String,
    pub item_count: usize,
    pub use_trash: bool,
    pub errors: Vec<String>,
}

/// The report of a scan.
#[derive(Debug)]
pub struct ScanReport {
    pub scan_target: String,
    pub sort_order: String,
    pub total_items: usize,
    pub total_size: u64,
    pub total_size_display: String,
    pub entries: Vec<ReportEntry>,
    pub dry_run: Option<DryRunReport>,
    pub clean_result: Option<CleanReport>,
}

/// The word the report uses for a kind of entry.
pub open spec fn kind_text(kind: EntryKind) -> Seq<char> {
    match kind {
        EntryKind::Directory => "directory"@,
        EntryKind::File => "file"@,
    }
}

/// The text the report shows for a size: the size for people to read, or a
/// word for a size that is not known.
pub open spec fn size_display_text(size: Option<u64>) -> Seq<char> {
    match size {
        Some(n) => byte_size_text(n),
        None => "未知"@,
    }
}

/// Whether `r` reports the entry `e`: path, name, kind and size as they
/// are, the size also for people to read, and the time of the last
/// modification as date and time of day.
pub open spec fn reports_entry(r: ReportEntry, e: EntryView) -> bool {
    &&& r.path@ == e.path
    &&& r.name@ == e.name
    &&& r.kind@ == kind_text(e.kind)
    &&& r.size == e.size
    &&& r.size_display@ == size_display_text(e.size)
    &&& match e.modified_at {
        Some(secs) => r.modified_at is Some && r.modified_at.unwrap()@ == formatted_time(
            secs as int,
            true,
        ),
        None => r.modified_at is None,
    }
}

/// Whether `r` reports the line `d` of a dry run.
pub open spec fn reports_dry_run_item(r: DryRunReportItem, d: DryRunItem) -> bool {
    &&& r.path@ == d.path@
    &&& r.file_count == d.file_count
    &&& r.dir_count == d.dir_count
    &&& r.size == d.size
    &&& r.size_display@ == byte_size_text(d.size)
}

/// Whether `r` reports the dry run `d`.
pub open spec fn reports_dry_run(r: DryRunReport, d: DryRunResult) -> bool {
    &&& r.total_files == d.total_files
    &&& r.total_dirs == d.total_dirs
    &&& r.total_size == d.total_size
    &&& r.total_size_display@ == byte_size_text(d.total_size)
    &&& r.items@.len() == d.items@.len()
    &&& forall|i: int|
        0 <= i < r.items@.len() ==> reports_dry_run_item(#[trigger] r.items@[i], d.items@[i])
}

/// Whether `r` reports the account `c` of a deletion of `item_count`
/// items.
pub open spec fn reports_clean(r: CleanReport, c: CleanResult, item_count: usize, use_trash: bool)
    -> bool {
    &&& r.success == c.success
    &&& r.freed_space == c.freed_space
    &&& r.freed_space_display@ == byte_size_text(c.freed_space)
    &&& r.item_count == item_count
    &&& r.use_trash == use_trash
    &&& r.errors@ == c.errors@
}

/// Formats a timestamp as date and time of day, for the report.
pub fn format_time_cli(secs: u64) -> (r: String)
    ensures
        r@ == formatted_time(secs as int, true),
{
    format_time(secs, true)
}

/// The entry `e` as the report shows it.
pub fn report_entry(e: &CleanableEntry) -> (r: ReportEntry)
    ensures
        reports_entry(r, e@),
{
    ReportEntry {
        path: e.path.clone(),
        name: e.name.clone(),
        kind: match e.kind {
            EntryKind::Directory => String::from_str("directory"),
            EntryKind::File => String::from_str("file"),
        },
        size: e.size,
        size_display: match e.size {
            Some(n) => format_size(n),
            None => String::from_str("未知"),
        },
        modified_at: match e.modified_at {
            Some(secs) => Some(format_time_cli(secs)),
            None => None,
        },
    }
}

/// The dry run `d` as the report shows it.
pub fn report_dry_run(d: &DryRunResult) -> (r: DryRunReport)
    ensures
        reports_dry_run(r, *d),
{
    let mut items: Vec<DryRunReportItem> = Vec::new();
    let mut i: usize = 0;
    while i < d.items.len()
        invariant
            i <= d.items.len(),
            items@.len() == i,
            forall|k: int| 0 <= k < i ==> reports_dry_run_item(#[trigger] items@[k], d.items@[k]),
        decreases d.items.len() - i,
    {
        let item = &d.items[i];
        items.push(
            DryRunReportItem {
                path: item.path.clone(),
                file_count: item.file_count,
                dir_count: item.dir_count,
                size: item.size,
                size_display: format_size(item.size),
            },
        );
        i += 1;
    }
    DryRunReport {
        total_files: d.total_files,
        total_dirs: d.total_dirs,
        total_size: d.total_size,
        total_size_display: format_size(d.total_size),
        items,
    }
}

/// The account `c` of a deletion as the report shows it.
pub fn report_clean(c: CleanResult, item_count: usize, use_trash: bool) -> (r: CleanReport)
    ensures
        reports_clean(r, c, item_count, use_trash),
{
    CleanReport {
        success: c.success,
        freed_space: c.freed_space,
        freed_space_display: format_size(c.freed_space),
        item_count,
        use_trash,
        errors: c.errors,
    }
}

/// Draws up the report of a scan of `scan_target` that found `entries`,
/// given in the order `sort_order` names.
pub fn build_report(
    scan_target: String,
    sort_order: String,
    entries: &Vec<CleanableEntry>,
    dry_run: Option<DryRunReport>,
    clean_result: Option<CleanReport>,
) -> (r: ScanReport)
    ensures
        r.scan_target == scan_target,
        r.sort_order == sort_order,
        r.total_items == entries@.len(),
        r.total_size == sat_u64(listed_bytes(entry_views(entries@))),
        r.total_size_display@ == byte_size_text(r.total_size),
        r.entries@.len() == entries@.len(),
        forall|i: int|
            0 <= i < entries@.len() ==> reports_entry(#[trigger] r.entries@[i], entries@[i]@),
        r.dry_run == dry_run,
        r.clean_result == clean_result,
{
    let total_size = sum_sizes(entries);
    let mut lines: Vec<ReportEntry> = Vec::new();
    let mut i: usize = 0;
    while i < entries.len()
        invariant
            i <= entries.len(),
            lines@.len() == i,
            forall|k: int| 0 <= k < i ==> reports_entry(#[trigger] lines@[k], entries@[k]@),
        decreases entries.len() - i,
    {
        lines.push(report_entry(&entries[i]));
        i += 1;
    }
    ScanReport {
        scan_target,
        sort_order,
        total_items: entries.len(),
        total_size,
        total_size_display: format_size(total_size),
        entries: lines,
        dry_run,
        clean_result,
    }
}

/// The texts of a sequence of lines.
pub open spec fn line_views(lines: Seq<String>) -> Seq<Seq<char>> {
    lines.map_values(|l: String| l@)
}

/// `count` times the character `c`.
pub open spec fn repeated(c: char, count: int) -> Seq<char> {
    Seq::new(
        if count > 0 {
            count as nat
        } else {
            0
        },
        |i: int| c,
    )
}

/// The text with blanks in front where it is shorter than `width`.
pub open spec fn right_aligned(text: Seq<char>, width: int) -> Seq<char> {
    repeated(' ', width - text.len()) + text
}

/// The line that rules off the list of entries.
pub open spec fn rule_line() -> Seq<char> {
    repeated('─', 70)
}

/// The line that sums the scan up.
pub open spec fn heading_line(total_items: usize, total_size_display: Seq<char>) -> Seq<char> {
    "扫描结果: "@ + decimal(total_items as int) + " 个项目 | 总大小: "@ + total_size_display
}

/// The sign shown for a kind of entry.
pub open spec fn kind_sign(kind: EntryKind) -> Seq<char> {
    match kind {
        EntryKind::Directory => "📁"@,
        EntryKind::File => "📄"@,
    }
}

/// The line of one entry: sign, size, name, and the time of the last
/// modification where it is known.
pub open spec fn entry_line(e: EntryView) -> Seq<char> {
    "  "@ + kind_sign(e.kind) + " "@ + right_aligned(size_display_text(e.size), 10) + "  "@ + e.name
        + match e.modified_at {
        Some(secs) => "  "@ + formatted_time(secs as int, true),
        None => Seq::empty(),
    }
}

/// The line that sums a dry run up.
pub open spec fn dry_run_total_line(d: DryRunReport) -> Seq<char> {
    "  总计: "@ + decimal(d.total_files as int) + " 个文件 / "@ + decimal(d.total_dirs as int)
        + " 个目录 / "@ + d.total_size_display@
}

/// The line of one item of a dry run.
pub open spec fn dry_run_item_line(i: DryRunReportItem) -> Seq<char> {
    "  • "@ + i.path@ + " — "@ + decimal(i.file_count as int) + " 文件 / "@ + decimal(
        i.dir_count as int,
    ) + " 目录 / "@ + i.size_display@
}

/// The lines of a dry run: a blank line, a heading, the totals, and one
/// line for each item.
pub open spec fn dry_run_lines(d: DryRunReport) -> Seq<Seq<char>> {
    seq![Seq::<char>::empty(), "Dry-run 预览:"@, dry_run_total_line(d)] + d.items@.map_values(
        |i: DryRunReportItem| dry_run_item_line(i),
    )
}

/// The line of a deletion without failure.
pub open spec fn clean_done_line(c: CleanReport, use_trash: bool) -> Seq<char> {
    (if use_trash {
        "移至回收站"@
    } else {
        "已删除"@
    }) + ": "@ + c.freed_space_display@ + " ("@ + decimal(c.item_count as int) + " 个项目)"@
}

/// The line of one item that failed.
pub open spec fn failed_item_line(error: Seq<char>) -> Seq<char> {
    "  ✗ "@ + error
}

/// The lines of a deletion: a blank line, then what was freed, or, after a
/// failure, a heading and one line for each item that failed.
pub open spec fn clean_lines(c: CleanReport, use_trash: bool) -> Seq<Seq<char>> {
    if c.success {
        seq![Seq::<char>::empty(), clean_done_line(c, use_trash)]
    } else {
        seq![Seq::<char>::empty(), "清理部分失败:"@] + line_views(c.errors@).map_values(
            |e: Seq<char>| failed_item_line(e),
        )
    }
}

/// The lines of the dry run of a report, where it has one.
pub open spec fn dry_part_of(report: ScanReport) -> Seq<Seq<char>> {
    match report.dry_run {
        Some(d) => dry_run_lines(d),
        None => Seq::empty(),
    }
}

/// The lines of the deletion of a report, where it has one.
pub open spec fn clean_part_of(report: ScanReport, use_trash: bool) -> Seq<Seq<char>> {
    match report.clean_result {
        Some(c) => clean_lines(c, use_trash),
        None => Seq::empty(),
    }
}

/// The lines of the whole report for the terminal: a blank line, the
/// heading, the entries between two rules, the dry run and the deletion
/// where there are any, and a blank line.
pub open spec fn report_text(report: ScanReport, entries: Seq<EntryView>, use_trash: bool) -> Seq<
    Seq<char>,
> {
    seq![
        Seq::<char>::empty(),
        heading_line(report.total_items, report.total_size_display@),
        rule_line(),
    ] + entries.map_values(|e: EntryView| entry_line(e)) + seq![rule_line()] + dry_part_of(report)
        + clean_part_of(report, use_trash) + seq![Seq::<char>::empty()]
}

/// Appends the decimal digits of `n`.
fn push_number(s: &mut String, n: usize)
    ensures
        final(s)@ == old(s)@ + decimal(n as int),
    decreases n,
{
    if n >= 10 {
        push_number(s, n / 10);
    }
    let d = n % 10;
    let c = if d == 0 {
        '0'
    } else if d == 1 {
        '1'
    } else if d == 2 {
        '2'
    } else if d == 3 {
        '3'
    } else if d == 4 {
        '4'
    } else if d == 5 {
        '5'
    } else if d == 6 {
        '6'
    } else if d == 7 {
        '7'
    } else if d == 8 {
        '8'
    } else {
        '9'
    };
    push_char(s, c);
}

/// Appends `count` times the character `c`.
fn push_repeated(s: &mut String, c: char, count: usize)
    ensures
        final(s)@ == old(s)@ + repeated(c, count as int),
{
    let ghost start = s@;
    let mut i: usize = 0;
    while i < count
        invariant
            i <= count,
            s@ == start + repeated(c, i as int),
        decreases count - i,
    {
        push_char(s, c);
        i += 1;
    }
}

/// Appends one line to `lines`.
fn push_line(lines: &mut Vec<String>, line: String)
    ensures
        line_views(final(lines)@) == line_views(old(lines)@).push(line@),
{
    lines.push(line);
}

/// The line of one entry.
fn format_entry_line(e: &CleanableEntry) -> (r: String)
    ensures
        r@ == entry_line(e@),
{
    let size_text = match e.size {
        Some(n) => format_size(n),
        None => String::from_str("未知"),
    };
    let width = size_text.as_str().unicode_len();
    let mut r = String::from_str("  ");
    match e.kind {
        EntryKind::Directory => r.append("📁"),
        EntryKind::File => r.append("📄"),
    }
    r.append(" ");
    if width < 10 {
        push_repeated(&mut r, ' ', 10 - width);
    }
    r.append(size_text.as_str());
    r.append("  ");
    r.append(e.name.as_str());
    match e.modified_at {
        Some(secs) => {
            let time = format_time_cli(secs);
            r.append("  ");
            r.append(time.as_str());
        },
        None => {
        },
    }
    r
}

/// The lines of the report as they are printed on the terminal. `entries`
/// are the entries the report was drawn up from.
pub fn report_lines(report: &ScanReport, entries: &Vec<CleanableEntry>, use_trash: bool) -> (r: Vec<
    String,
>)
    ensures
        line_views(r@) == report_text(*report, entry_views(entries@), use_trash),
{
    let ghost views = entry_views(entries@);
    let mut r: Vec<String> = Vec::new();
    push_line(&mut r, String::new());
    let mut heading = String::from_str("扫描结果: ");
    push_number(&mut heading, report.total_items);
    heading.append(" 个项目 | 总大小: ");
    heading.append(report.total_size_display.as_str());
    push_line(&mut r, heading);
    let mut rule = String::new();
    push_repeated(&mut rule, '─', 70);
    push_line(&mut r, rule.clone());
    let ghost head = line_views(r@);
    let mut i: usize = 0;
    while i < entries.len()
        invariant
            i <= entries.len(),
            views == entry_views(entries@),
            line_views(r@) == head + views.subrange(0, i as int).map_values(
                |e: EntryView| entry_line(e),
            ),
        decreases entries.len() - i,
    {
        let line = format_entry_line(&entries[i]);
        push_line(&mut r, line);
        i += 1;
    }
    push_line(&mut r, rule);
    match &report.dry_run {
        Some(d) => {
            push_line(&mut r, String::new());
            push_line(&mut r, String::from_str("Dry-run 预览:"));
            let mut totals = String::from_str("  总计: ");
            push_number(&mut totals, d.total_files);
            totals.append(" 个文件 / ");
            push_number(&mut totals, d.total_dirs);
            totals.append(" 个目录 / ");
            totals.append(d.total_size_display.as_str());
            push_line(&mut r, totals);
            let ghost lead = line_views(r@);
            let ghost item_lines = d.items@.map_values(|i: DryRunReportItem| dry_run_item_line(i));
            let mut k: usize = 0;
            while k < d.items.len()
                invariant
                    k <= d.items.len(),
                    item_lines == d.items@.map_values(|i: DryRunReportItem| dry_run_item_line(i)),
                    line_views(r@) == lead + item_lines.subrange(0, k as int),
                decreases d.items.len() - k,
            {
                let item = &d.items[k];
                let mut line = String::from_str("  • ");
                line.append(item.path.as_str());
                line.append(" — ");
                push_number(&mut line, item.file_count);
                line.append(" 文件 / ");
                push_number(&mut line, item.dir_count);
                line.append(" 目录 / ");
                line.append(item.size_display.as_str());
                push_line(&mut r, line);
                k += 1;
            }
        },
        None => {
        },
    }
    match &report.clean_result {
        Some(c) => {
            push_line(&mut r, String::new());
            if c.success {
                let mut line = String::from_str(
                    if use_trash {
                        "移至回收站"
                    } else {
                        "已删除"
                    },
                );
                line.append(": ");
                line.append(c.freed_space_display.as_str());
                line.append(" (");
                push_number(&mut line, c.item_count);
                line.append(" 个项目)");
                push_line(&mut r, line);
            } else {
                push_line(&mut r, String::from_str("清理部分失败:"));
                let ghost lead = line_views(r@);
                let ghost failed = line_views(c.errors@).map_values(
                    |e: Seq<char>| failed_item_line(e),
                );
                let mut k: usize = 0;
                while k < c.errors.len()
                    invariant
                        k <= c.errors.len(),
                        failed == line_views(c.errors@).map_values(
                            |e: Seq<char>| failed_item_line(e),
                        ),
                        line_views(r@) == lead + failed.subrange(0, k as int),
                    decreases c.errors.len() - k,
                {
                    let line = join2("  ✗ ", c.errors[k].as_str());
                    push_line(&mut r, line);
                    k += 1;
                }
            }
        },
        None => {
        },
    }
    push_line(&mut r, String::new());
    r
}

} // verus!
