//! The cleaner: which paths may be deleted at all, what a deletion would
//! remove, and the account of what a deletion did remove.

use vstd::prelude::*;
use vstd::string::*;
use crate::app::{CleanableEntry, EntryView};
use crate::clean_run::CleanRun;
use crate::clean_run::CleanRunState;
use crate::sums::{total, sat_u64, sat_usize, lemma_total_push};
use crate::text::{is_prefix, join4, opt_text, starts_with};
use crate::utils::resolve_home_dir;
use crate::walk::{ContentTally, WalkEntry, WalkEntryView, walk_dirs, walk_file_bytes, walk_files};

verus! {

/// The mathematical value of a [`CleanResult`].
pub struct CleanResultView {
    pub success: bool,
    pub freed_space: u64,
    pub errors: Seq<Seq<char>>,
}

/// What a deletion did: the bytes it freed, and one line for each item that
/// failed. `success` says that no item failed.
#[derive(Debug)]
pub struct CleanResult {
    pub success: bool,
    pub freed_space: u64,
    pub errors: Vec<String>,
}

impl View for CleanResult {
    type V = CleanResultView;

    open spec fn view(&self) -> CleanResultView {
        CleanResultView {
            success: self.success,
            freed_space: self.freed_space,
            errors: self.errors@.map_values(|e: String| e@),
        }
    }
}

/// What lies below one path: regular files, directories, and the bytes of
/// the files.
#[derive(Debug, Clone, Copy, PartialEq, Eq, Structural)]
pub struct ContentCount {
    pub file_count: usize,
    pub dir_count: usize,
    pub size: u64,
}

/// The mathematical value of a [`DryRunItem`].
pub struct DryRunItemView {
    pub path: Seq<char>,
    pub file_count: usize,
    pub dir_count: usize,
    pub size: u64,
}

/// What a deletion of one item would remove.
#[derive(Debug)]
pub struct DryRunItem {
    pub path: String,
    pub file_count: usize,
    pub dir_count: usize,
    pub size: u64,
}

impl View for DryRunItem {
    type V = DryRunItemView;

    open spec fn view(&self) -> DryRunItemView {
        DryRunItemView {
            path: self.path@,
            file_count: self.file_count,
            dir_count: self.dir_count,
            size: self.size,
        }
    }
}

impl Clone for DryRunItem {
    fn clone(&self) -> (r: Self)
        ensures
            r == *self,
    {
        DryRunItem {
            path: self.path.clone(),
            file_count: self.file_count,
            dir_count: self.dir_count,
            size: self.size,
        }
    }
}

/// The mathematical value of a [`DryRunResult`].
pub struct DryRunResultView {
    pub total_files: usize,
    pub total_dirs: usize,
    pub total_size: u64,
    pub items: Seq<DryRunItemView>,
}

/// What a deletion would remove, in total and item by item. Nothing is
/// removed to find out.
#[derive(Debug)]
pub struct DryRunResult {
    pub total_files: usize,
    pub total_dirs: usize,
    pub total_size: u64,
    pub items: Vec<DryRunItem>,
}

impl View for DryRunResult {
    type V = DryRunResultView;

    open spec fn view(&self) -> DryRunResultView {
        DryRunResultView {
            total_files: self.total_files,
            total_dirs: self.total_dirs,
            total_size: self.total_size,
            items: self.items@.map_values(|i: DryRunItem| i@),
        }
    }
}

/// What became of one item of a deletion.
pub enum OutcomeView {
    /// The item was removed, or emptied.
    Acted,
    /// The item was not there any more; nothing was done.
    Skipped,
    /// The deletion failed, for the reason given.
    Failed(Seq<char>),
}

/// The value of the outcome of one item: `Ok(true)` where it was acted on,
/// `Ok(false)` where it was passed over, `Err` with the reason where it
/// failed.
pub open spec fn outcome_view(outcome: Result<bool, String>) -> OutcomeView {
    match outcome {
        Ok(true) => OutcomeView::Acted,
        Ok(false) => OutcomeView::Skipped,
        Err(message) => OutcomeView::Failed(message@),
    }
}

/// The values of a sequence of outcomes.
pub open spec fn outcome_views(outcomes: Seq<Result<bool, String>>) -> Seq<OutcomeView> {
    outcomes.map_values(|o: Result<bool, String>| outcome_view(o))
}

/// The values of a sequence of entries.
pub open spec fn entry_views(entries: Seq<CleanableEntry>) -> Seq<EntryView> {
    entries.map_values(|e: CleanableEntry| e@)
}

/// The line reported for an item that failed.
pub open spec fn item_error_text(path: Seq<char>, message: Seq<char>) -> Seq<char> {
    path + ": "@ + message
}

/// The bytes an item frees: its recorded size where it was acted on, and
/// nothing where it was passed over, failed, or has no recorded size.
pub open spec fn freed_by(item: EntryView, outcome: OutcomeView) -> int {
    if outcome is Acted && item.size is Some {
        item.size.unwrap() as int
    } else {
        0
    }
}

/// The number of items that have an outcome.
pub open spec fn paired(items: Seq<EntryView>, outcomes: Seq<OutcomeView>) -> int {
    if items.len() <= outcomes.len() {
        items.len() as int
    } else {
        outcomes.len() as int
    }
}

/// The bytes freed by the first `n` items.
pub open spec fn freed_upto(items: Seq<EntryView>, outcomes: Seq<OutcomeView>, n: int) -> int {
    total(Seq::new(n as nat, |i: int| freed_by(items[i], outcomes[i])))
}

/// The lines for the failures among the first `n` items, in item order.
pub open spec fn errors_upto(items: Seq<EntryView>, outcomes: Seq<OutcomeView>, n: int) -> Seq<
    Seq<char>,
>
    decreases n,
{
    if n <= 0 {
        Seq::empty()
    } else {
        let rest = errors_upto(items, outcomes, n - 1);
        match outcomes[n - 1] {
            OutcomeView::Failed(message) => rest.push(item_error_text(items[n - 1].path, message)),
            _ => rest,
        }
    }
}

/// The account of a deletion: each item is taken with its outcome, an item
/// without an outcome counts for nothing. The freed bytes are the recorded
/// sizes of the items acted on, held as `u64::MAX` where they do not fit;
/// the errors are the lines of the failed items; and the deletion succeeded
/// where there is no error.
pub open spec fn clean_summary(items: Seq<EntryView>, outcomes: Seq<OutcomeView>)
    -> CleanResultView {
    let n = paired(items, outcomes);
    let errors = errors_upto(items, outcomes, n);
    CleanResultView {
        success: errors.len() == 0,
        freed_space: sat_u64(freed_upto(items, outcomes, n)),
        errors,
    }
}

/// One more item adds what it frees.
pub proof fn lemma_freed_step(items: Seq<EntryView>, outcomes: Seq<OutcomeView>, n: int)
    requires
        0 <= n,
    ensures
        freed_upto(items, outcomes, n + 1) == freed_upto(items, outcomes, n) + freed_by(
            items[n],
            outcomes[n],
        ),
        freed_upto(items, outcomes, n) >= 0,
    decreases n,
{
    let f = |i: int| freed_by(items[i], outcomes[i]);
    assert(Seq::new((n + 1) as nat, f) =~= Seq::new(n as nat, f).push(f(n)));
    lemma_total_push(Seq::new(n as nat, f), f(n));
    if n > 0 {
        lemma_freed_step(items, outcomes, n - 1);
    }
}

/// What was found out about a path before counting what lies below it.
#[derive(Debug, Clone, Copy, PartialEq, Eq, Structural)]
pub struct ContentProbe {
    pub exists: bool,
    /// Whether the path is a regular file.
    pub is_file: bool,
    /// The length of the file, where the metadata could be read.
    pub size: Option<u64>,
}

/// What a deletion of a path would remove. Nothing for a path that does not
/// exist; the file itself for a regular file; for a directory the files and
/// directories below it, the directory itself left out.
pub open spec fn content_of(probe: ContentProbe, walk: Seq<WalkEntryView>, root: Seq<char>)
    -> ContentCount {
    if !probe.exists {
        ContentCount { file_count: 0, dir_count: 0, size: 0 }
    } else if probe.is_file {
        ContentCount {
            file_count: 1,
            dir_count: 0,
            size: if probe.size is Some {
                probe.size.unwrap()
            } else {
                0
            },
        }
    } else {
        ContentCount {
            file_count: sat_usize(walk_files(walk, root)),
            dir_count: sat_usize(walk_dirs(walk, root)),
            size: sat_u64(walk_file_bytes(walk, root)),
        }
    }
}

/// The number of items that have a count.
pub open spec fn counted(items: Seq<EntryView>, counts: Seq<ContentCount>) -> int {
    if items.len() <= counts.len() {
        items.len() as int
    } else {
        counts.len() as int
    }
}

/// The files below the first `n` counted paths.
pub open spec fn files_upto(counts: Seq<ContentCount>, n: int) -> int {
    total(Seq::new(n as nat, |i: int| counts[i].file_count as int))
}

/// The directories below the first `n` counted paths.
pub open spec fn dirs_upto(counts: Seq<ContentCount>, n: int) -> int {
    total(Seq::new(n as nat, |i: int| counts[i].dir_count as int))
}

/// The bytes below the first `n` counted paths.
pub open spec fn bytes_upto(counts: Seq<ContentCount>, n: int) -> int {
    total(Seq::new(n as nat, |i: int| counts[i].size as int))
}

/// The lines of a dry run for the first `n` items.
pub open spec fn dry_run_items(items: Seq<EntryView>, counts: Seq<ContentCount>, n: int) -> Seq<
    DryRunItemView,
> {
    Seq::new(
        n as nat,
        |i: int|
            DryRunItemView {
                path: items[i].path,
                file_count: counts[i].file_count,
                dir_count: counts[i].dir_count,
                size: counts[i].size,
            },
    )
}

/// The report of a dry run: each item is taken with the count of what lies
/// below it, an item without a count is left out. The totals are the sums
/// over the items, each held as the largest value of its type where it does
/// not fit.
pub open spec fn dry_run_summary(items: Seq<EntryView>, counts: Seq<ContentCount>)
    -> DryRunResultView {
    let n = counted(items, counts);
    DryRunResultView {
        total_files: sat_usize(files_upto(counts, n)),
        total_dirs: sat_usize(dirs_upto(counts, n)),
        total_size: sat_u64(bytes_upto(counts, n)),
        items: dry_run_items(items, counts, n),
    }
}

/// One more counted path adds its counts.
pub proof fn lemma_counts_step(counts: Seq<ContentCount>, n: int)
    requires
        0 <= n,
    ensures
        files_upto(counts, n + 1) == files_upto(counts, n) + counts[n].file_count,
        dirs_upto(counts, n + 1) == dirs_upto(counts, n) + counts[n].dir_count,
        bytes_upto(counts, n + 1) == bytes_upto(counts, n) + counts[n].size,
        files_upto(counts, n) >= 0,
        dirs_upto(counts, n) >= 0,
        bytes_upto(counts, n) >= 0,
    decreases n,
{
    let f = |i: int| counts[i].file_count as int;
    let d = |i: int| counts[i].dir_count as int;
    let b = |i: int| counts[i].size as int;
    assert(Seq::new((n + 1) as nat, f) =~= Seq::new(n as nat, f).push(f(n)));
    assert(Seq::new((n + 1) as nat, d) =~= Seq::new(n as nat, d).push(d(n)));
    assert(Seq::new((n + 1) as nat, b) =~= Seq::new(n as nat, b).push(b(n)));
    lemma_total_push(Seq::new(n as nat, f), f(n));
    lemma_total_push(Seq::new(n as nat, d), d(n));
    lemma_total_push(Seq::new(n as nat, b), b(n));
    if n > 0 {
        lemma_counts_step(counts, n - 1);
    }
}

/// A deletion frees what the dry run announced. Take the same items for
/// both, with no change on disk in between: every item that the deletion
/// acted on has as its recorded size the bytes the dry run counted below it,
/// every item that it passed over was counted as empty, and no item failed.
/// Then the bytes the deletion reports as freed are the total bytes of the
/// dry run.
pub proof fn lemma_clean_frees_what_dry_run_reports(
    items: Seq<EntryView>,
    counts: Seq<ContentCount>,
    outcomes: Seq<OutcomeView>,
)
    requires
        counts.len() == items.len(),
        outcomes.len() == items.len(),
        forall|i: int|
            0 <= i < items.len() ==> match #[trigger] outcomes[i] {
                OutcomeView::Acted => items[i].size == Some(counts[i].size),
                OutcomeView::Skipped => counts[i].size == 0,
                OutcomeView::Failed(_) => false,
            },
    ensures
        clean_summary(items, outcomes).freed_space == dry_run_summary(items, counts).total_size,
        clean_summary(items, outcomes).success,
{
    let n = items.len() as int;
    lemma_same_bytes(items, counts, outcomes, n);
}

/// Up to any item, the freed bytes are the counted bytes and nothing
/// failed, under the conditions of
/// [`lemma_clean_frees_what_dry_run_reports`].
proof fn lemma_same_bytes(
    items: Seq<EntryView>,
    counts: Seq<ContentCount>,
    outcomes: Seq<OutcomeView>,
    n: int,
)
    requires
        0 <= n <= items.len(),
        counts.len() == items.len(),
        outcomes.len() == items.len(),
        forall|i: int|
            0 <= i < items.len() ==> match #[trigger] outcomes[i] {
                OutcomeView::Acted => items[i].size == Some(counts[i].size),
                OutcomeView::Skipped => counts[i].size == 0,
                OutcomeView::Failed(_) => false,
            },
    ensures
        freed_upto(items, outcomes, n) == bytes_upto(counts, n),
        errors_upto(items, outcomes, n).len() == 0,
    decreases n,
{
    if n > 0 {
        lemma_same_bytes(items, counts, outcomes, n - 1);
        lemma_freed_step(items, outcomes, n - 1);
        lemma_counts_step(counts, n - 1);
    }
}

/// The system locations that are never deleted.
pub open spec fn forbidden_paths() -> Seq<Seq<char>> {
    seq![
        "/"@,
        "/System"@,
        "/Library"@,
        "/Applications"@,
        "/Users"@,
        "/bin"@,
        "/sbin"@,
        "/usr"@,
        "/var"@,
        "/etc"@,
        "/private"@,
    ]
}

/// A path without its trailing separators; the root stays the root.
pub open spec fn trimmed(path: Seq<char>) -> Seq<char>
    decreases path.len(),
{
    if path.len() > 1 && path.last() == '/' {
        trimmed(path.drop_last())
    } else {
        path
    }
}

/// Whether `path` is `root` or lies below it: `root` is a prefix of `path`
/// that ends where a component of `path` ends.
pub open spec fn is_within(path: Seq<char>, root: Seq<char>) -> bool {
    &&& root.len() > 0
    &&& is_prefix(root, path)
    &&& (path.len() == root.len() || root.last() == '/' || path[root.len() as int] == '/')
}

/// Whether `path` is a temporary directory or lies below one.
pub open spec fn is_temp_path(path: Seq<char>) -> bool {
    is_within(path, "/tmp"@) || is_within(path, "/private/tmp"@) || is_within(path, "/var/tmp"@)
}

/// Whether the canonical path `canonical` may be deleted, `home` being the
/// home directory of the user where one is known. A forbidden system
/// location never may, nor the home directory itself. Apart from those,
/// what lies below the home directory may, and what is a temporary
/// directory or lies below one. Everything else may not.
pub open spec fn safe_to_delete(canonical: Seq<char>, home: Option<Seq<char>>) -> bool {
    &&& !forbidden_paths().contains(canonical)
    &&& match home {
        Some(h) => canonical != trimmed(h) && (is_within(canonical, trimmed(h)) || is_temp_path(
            canonical,
        )),
        None => is_temp_path(canonical),
    }
}

/// The text of the error for a home directory that cannot be found.
pub open spec fn no_home_text() -> Seq<char> {
    "无法获取用户目录"@
}

/// The disk cleaner.
pub struct Cleaner;

impl Default for Cleaner {
    fn default() -> Self {
        Cleaner
    }
}

impl Cleaner {
    /// Begins the permanent removal of `items`. A file is removed; a
    /// directory is emptied and kept; an item that is not there any more is
    /// passed over.
    pub fn clean(items: Vec<CleanableEntry>) -> (run: CleanRun)
        ensures
            run@ == CleanRunState::initial(entry_views(items@), false),
            run@.inv(),
    {
        CleanRun::new(items, false)
    }

    /// Begins the move of `items` to the trash of the operating system. A
    /// file is moved; of a directory each immediate child is moved and the
    /// directory kept; an item that is not there any more is passed over.
    pub fn trash_items(items: Vec<CleanableEntry>) -> (run: CleanRun)
        ensures
            run@ == CleanRunState::initial(entry_views(items@), true),
            run@.inv(),
    {
        CleanRun::new(items, true)
    }

    /// Draws up the account of a deletion from the outcome of each item:
    /// `Ok(true)` for an item acted on, `Ok(false)` for one passed over,
    /// `Err` with the reason for one that failed.
    pub fn process_items(items: &Vec<CleanableEntry>, outcomes: &Vec<Result<bool, String>>) -> (r:
        CleanResult)
        ensures
            r@ == clean_summary(entry_views(items@), outcome_views(outcomes@)),
    {
        let ghost iv = entry_views(items@);
        let ghost ov = outcome_views(outcomes@);
        let n = if items.len() <= outcomes.len() {
            items.len()
        } else {
            outcomes.len()
        };
        let mut freed_space: u64 = 0;
        let mut errors: Vec<String> = Vec::new();
        let mut i: usize = 0;
        while i < n
            invariant
                i <= n,
                n == paired(iv, ov),
                iv == entry_views(items@),
                ov == outcome_views(outcomes@),
                freed_space == sat_u64(freed_upto(iv, ov, i as int)),
                errors@.map_values(|e: String| e@) == errors_upto(iv, ov, i as int),
            decreases n - i,
        {
            proof {
                lemma_freed_step(iv, ov, i as int);
            }
            match &outcomes[i] {
                Ok(acted) => {
                    if *acted {
                        let size = match items[i].size {
                            Some(s) => s,
                            None => 0,
                        };
                        freed_space = freed_space.saturating_add(size);
                    }
                },
                Err(message) => {
                    let line = Self::format_item_error(items[i].path.as_str(), message.as_str());
                    errors.push(line);
                },
            }
            i += 1;
        }
        let success = errors.len() == 0;
        CleanResult { success, freed_space, errors }
    }

    /// The line reported for an item that failed: its path, a colon, and
    /// the reason.
    pub fn format_item_error(path: &str, error_message: &str) -> (line: String)
        ensures
            line@ == item_error_text(path@, error_message@),
    {
        let line = join4(path, ": ", error_message, "");
        proof {
            reveal_strlit("");
        }
        line
    }

    /// Reports what a deletion of `items` would remove, from the count of
    /// what lies below each of them.
    pub fn dry_run(items: &Vec<CleanableEntry>, counts: &Vec<ContentCount>) -> (r: DryRunResult)
        ensures
            r@ == dry_run_summary(entry_views(items@), counts@),
    {
        let ghost iv = entry_views(items@);
        let n = if items.len() <= counts.len() {
            items.len()
        } else {
            counts.len()
        };
        let mut total_files: usize = 0;
        let mut total_dirs: usize = 0;
        let mut total_size: u64 = 0;
        let mut lines: Vec<DryRunItem> = Vec::new();
        let mut i: usize = 0;
        while i < n
            invariant
                i <= n,
                n == counted(iv, counts@),
                iv == entry_views(items@),
                total_files == sat_usize(files_upto(counts@, i as int)),
                total_dirs == sat_usize(dirs_upto(counts@, i as int)),
                total_size == sat_u64(bytes_upto(counts@, i as int)),
                lines@.map_values(|l: DryRunItem| l@) == dry_run_items(iv, counts@, i as int),
            decreases n - i,
        {
            proof {
                lemma_counts_step(counts@, i as int);
            }
            let count = counts[i];
            total_files = total_files.saturating_add(count.file_count);
            total_dirs = total_dirs.saturating_add(count.dir_count);
            total_size = total_size.saturating_add(count.size);
            let ghost before = lines@.map_values(|l: DryRunItem| l@);
            lines.push(
                DryRunItem {
                    path: items[i].path.clone(),
                    file_count: count.file_count,
                    dir_count: count.dir_count,
                    size: count.size,
                },
            );
            assert(lines@.map_values(|l: DryRunItem| l@) =~= before.push(lines[i as int]@));
            i += 1;
        }
        DryRunResult { total_files, total_dirs, total_size, items: lines }
    }

    /// Counts what a deletion of `root` would remove. `walk` is the
    /// recursive walk of `root`, read where `root` is a directory.
    pub fn count_path_contents(probe: ContentProbe, walk: &Vec<WalkEntry>, root: &str) -> (r:
        ContentCount)
        ensures
            r == content_of(probe, walk@.map_values(|e: WalkEntry| e@), root@),
    {
        if !probe.exists {
            return ContentCount { file_count: 0, dir_count: 0, size: 0 };
        }
        if probe.is_file {
            let size = match probe.size {
                Some(s) => s,
                None => 0,
            };
            return ContentCount { file_count: 1, dir_count: 0, size };
        }
        let ghost views = walk@.map_values(|e: WalkEntry| e@);
        let mut tally = ContentTally::new(root);
        let mut i: usize = 0;
        while i < walk.len()
            invariant
                i <= walk.len(),
                views == walk@.map_values(|e: WalkEntry| e@),
                tally.root() == root@,
                tally.seen() == views.subrange(0, i as int),
            decreases walk.len() - i,
        {
            tally.observe(&walk[i]);
            i += 1;
        }
        assert(views.subrange(0, i as int) =~= views);
        let (file_count, dir_count, size) = tally.counts();
        ContentCount { file_count, dir_count, size }
    }

    /// What a deletion of a path that holds what `tally` has met would
    /// remove, `probe` being what was found out about the path itself.
    pub fn content_count(probe: ContentProbe, tally: &ContentTally) -> (r: ContentCount)
        ensures
            r == content_of(probe, tally.seen(), tally.root()),
    {
        if !probe.exists {
            return ContentCount { file_count: 0, dir_count: 0, size: 0 };
        }
        if probe.is_file {
            let size = match probe.size {
                Some(s) => s,
                None => 0,
            };
            return ContentCount { file_count: 1, dir_count: 0, size };
        }
        let (file_count, dir_count, size) = tally.counts();
        ContentCount { file_count, dir_count, size }
    }

    /// Whether `path` is one of the forbidden system locations.
    fn is_forbidden(path: &str) -> (r: bool)
        ensures
            r == forbidden_paths().contains(path@),
    {
        let p = String::from_str(path);
        let r = p == String::from_str("/") || p == String::from_str("/System") || p
            == String::from_str("/Library") || p == String::from_str("/Applications") || p
            == String::from_str("/Users") || p == String::from_str("/bin") || p
            == String::from_str("/sbin") || p == String::from_str("/usr") || p == String::from_str(
            "/var",
        ) || p == String::from_str("/etc") || p == String::from_str("/private");
        r
    }

    /// Whether `path` is `root` or lies below it.
    fn within(path: &str, root: &str) -> (r: bool)
        ensures
            r == is_within(path@, root@),
    {
        let n = root.unicode_len();
        let m = path.unicode_len();
        if n == 0 || !starts_with(path, root) {
            return false;
        }
        m == n || root.get_char(n - 1) == '/' || path.get_char(n) == '/'
    }

    /// `path` without its trailing separators.
    fn trim(path: &str) -> (r: &str)
        ensures
            r@ == trimmed(path@),
    {
        let mut n = path.unicode_len();
        assert(path@.subrange(0, n as int) =~= path@);
        while n > 1 && path.get_char(n - 1) == '/'
            invariant
                n <= path@.len(),
                trimmed(path@) == trimmed(path@.subrange(0, n as int)),
            decreases n,
        {
            assert(path@.subrange(0, n as int).drop_last() =~= path@.subrange(0, n - 1));
            n -= 1;
        }
        path.substring_char(0, n)
    }

    /// Decides whether the canonical path `canonical` may be deleted, `home`
    /// being the home directory of the user where one is known.
    pub fn is_safe_canonical(canonical: &str, home: Option<&str>) -> (r: bool)
        ensures
            r == safe_to_delete(canonical@, opt_text(home)),
    {
        if Self::is_forbidden(canonical) {
            return false;
        }
        match home {
            Some(h) => {
                let home_path = Self::trim(h);
                if String::from_str(canonical) == String::from_str(home_path) {
                    return false;
                }
                if Self::within(canonical, home_path) {
                    return true;
                }
            },
            None => {},
        }
        Self::within(canonical, "/tmp") || Self::within(canonical, "/private/tmp") || Self::within(
            canonical,
            "/var/tmp",
        )
    }

    /// Decides whether a path may be deleted. `canonical` is the path with
    /// every symbolic link resolved, or `None` where it could not be
    /// resolved, which is the case for a path that does not exist: such a
    /// path is never safe. Nor is a forbidden system location. Otherwise
    /// the answer is that of [`Cleaner::is_safe_canonical`] for whatever home
    /// directory the system names.
    pub fn is_safe_to_delete(canonical: Option<&str>) -> (r: bool)
        ensures
            canonical is None ==> !r,
            canonical is Some ==> exists|home: Option<Seq<char>>|
                r == safe_to_delete(canonical.unwrap()@, home),
            canonical is Some && forbidden_paths().contains(canonical.unwrap()@) ==> !r,
            canonical is Some && !forbidden_paths().contains(canonical.unwrap()@) && is_temp_path(
                canonical.unwrap()@,
            ) ==> r || exists|home: Seq<char>| canonical.unwrap()@ == trimmed(home),
    {
        match canonical {
            None => false,
            Some(path) => {
                let home = resolve_home_dir();
                match home {
                    Some(h) => {
                        let r = Self::is_safe_canonical(path, Some(h.as_str()));
                        r
                    },
                    None => {
                        let r = Self::is_safe_canonical(path, None);
                        r
                    },
                }
            },
        }
    }

    /// The first of `items` that may not be deleted, if there is one.
    /// `canonical` gives for each item its path with every symbolic link
    /// resolved, or `None` where it could not be resolved; an item that
    /// `canonical` does not cover counts as unresolved.
    pub fn first_unsafe(items: &Vec<CleanableEntry>, canonical: &Vec<Option<String>>, home: Option<
        &str,
    >) -> (r: Option<usize>)
        ensures
            match r {
                Some(i) => i < items.len() && !item_is_safe(canonical@, i as int, opt_text(home))
                    && forall|k: int| 0 <= k < i ==> item_is_safe(canonical@, k, opt_text(home)),
                None => forall|k: int|
                    0 <= k < items.len() ==> item_is_safe(canonical@, k, opt_text(home)),
            },
    {
        let mut i: usize = 0;
        while i < items.len()
            invariant
                i <= items.len(),
                forall|k: int| 0 <= k < i ==> item_is_safe(canonical@, k, opt_text(home)),
            decreases items.len() - i,
        {
            let safe = if i < canonical.len() {
                match &canonical[i] {
                    Some(path) => Self::is_safe_canonical(path.as_str(), home),
                    None => false,
                }
            } else {
                false
            };
            if !safe {
                return Some(i);
            }
            i += 1;
        }
        None
    }

    /// The directory that holds the trash of the user whose home directory
    /// is `home`. Without a home directory there is no trash to find.
    pub fn trash_path(home: Option<&str>) -> (r: Result<String, String>)
        ensures
            match r {
                Ok(path) => home is Some && path@ == crate::text::path_join(
                    home.unwrap()@,
                    ".Trash"@,
                ),
                Err(message) => home is None && message@ == no_home_text(),
            },
    {
        match home {
            Some(h) => Ok(crate::text::join_path(h, ".Trash")),
            None => Err(String::from_str("无法获取用户目录")),
        }
    }

    /// The bytes freed by emptying the trash. `sizes` gives the length of
    /// each object directly in the trash, in the order in which they were
    /// removed, and `failure` the reason why the removal stopped early, if
    /// it did: then the emptying failed as a whole.
    pub fn empty_trash(sizes: &Vec<u64>, failure: Option<String>) -> (r: Result<u64, String>)
        ensures
            match r {
                Ok(freed) => failure is None && freed == sat_u64(
                    total(sizes@.map_values(|s: u64| s as int)),
                ),
                Err(message) => failure == Some(message),
            },
    {
        match failure {
            Some(message) => Err(message),
            None => {
                let ghost all = sizes@.map_values(|s: u64| s as int);
                let mut freed: u64 = 0;
                let mut i: usize = 0;
                while i < sizes.len()
                    invariant
                        i <= sizes.len(),
                        all == sizes@.map_values(|s: u64| s as int),
                        freed == sat_u64(total(all.subrange(0, i as int))),
                        total(all.subrange(0, i as int)) >= 0,
                    decreases sizes.len() - i,
                {
                    proof {
                        lemma_total_push(all.subrange(0, i as int), all[i as int]);
                        assert(all.subrange(0, i as int).push(all[i as int]) =~= all.subrange(
                            0,
                            i + 1,
                        ));
                    }
                    freed = freed.saturating_add(sizes[i]);
                    i += 1;
                }
                assert(all.subrange(0, i as int) =~= all);
                Ok(freed)
            },
        }
    }
}

/// Whether item `i` passed the safety check: its canonical path is known
/// and may be deleted.
pub open spec fn item_is_safe(canonical: Seq<Option<String>>, i: int, home: Option<Seq<char>>)
    -> bool {
    &&& 0 <= i < canonical.len()
    &&& canonical[i] is Some
    &&& safe_to_delete(canonical[i].unwrap()@, home)
}

} // verus!
