//! The scanner: the catalog of well-known locations, the messages a scan
//! emits, and the rules every message stream obeys.

use vstd::prelude::*;
use vstd::string::*;
use crate::app::{opt_string_text, CleanableEntry, EntryView, ItemCategory};
use crate::dir_scan::{DirScan, DirScanState, PathProbe};
use crate::preset_scan::{PresetScan, PresetScanState, target_views};
use crate::sums::sat_u64;
use crate::text::{join_path, path_join};
use crate::utils::resolve_home_dir;
use crate::walk::{WalkEntry, calc_dir_size, walk_bytes};

verus! {

/// The three ways to scan.
#[derive(Debug, Clone, Copy, PartialEq, Eq, Structural)]
pub enum ScanKind {
    /// The catalog of well-known reclaimable locations.
    Root,
    /// The immediate children of one directory.
    ListDir,
    /// An arbitrary path, whose children become the new top level.
    DiskScan,
}

/// The mathematical value of a [`ScanMessage`].
pub enum MessageView {
    Progress { job_id: u64, progress: u8, path: Seq<char> },
    RootItem { job_id: u64, entry: EntryView },
    DirEntry { job_id: u64, entry: EntryView },
    DirEntrySize { job_id: u64, path: Seq<char>, size: u64 },
    Done { job_id: u64 },
    Error { job_id: u64, message: Seq<char> },
}

impl MessageView {
    /// The job that produced the message.
    pub open spec fn job(self) -> u64 {
        match self {
            MessageView::Progress { job_id, .. } => job_id,
            MessageView::RootItem { job_id, .. } => job_id,
            MessageView::DirEntry { job_id, .. } => job_id,
            MessageView::DirEntrySize { job_id, .. } => job_id,
            MessageView::Done { job_id } => job_id,
            MessageView::Error { job_id, .. } => job_id,
        }
    }

    /// `Done` and `Error` end a job's stream.
    pub open spec fn is_terminal(self) -> bool {
        self is Done || self is Error
    }
}

/// One message of a scan. Every variant carries the id of its job.
#[derive(Debug)]
pub enum ScanMessage {
    /// How far the scan is, in percent, and what it is looking at.
    Progress { job_id: u64, progress: u8, path: String },
    /// A top-level entry.
    RootItem { job_id: u64, entry: CleanableEntry },
    /// A child of the listed directory.
    DirEntry { job_id: u64, entry: CleanableEntry },
    /// The size of a directory reported earlier without one.
    DirEntrySize { job_id: u64, path: String, size: u64 },
    /// The scan completed.
    Done { job_id: u64 },
    /// The scan failed.
    Error { job_id: u64, message: String },
}

impl View for ScanMessage {
    type V = MessageView;

    open spec fn view(&self) -> MessageView {
        match self {
            ScanMessage::Progress { job_id, progress, path } => MessageView::Progress {
                job_id: *job_id,
                progress: *progress,
                path: path@,
            },
            ScanMessage::RootItem { job_id, entry } => MessageView::RootItem {
                job_id: *job_id,
                entry: entry@,
            },
            ScanMessage::DirEntry { job_id, entry } => MessageView::DirEntry {
                job_id: *job_id,
                entry: entry@,
            },
            ScanMessage::DirEntrySize { job_id, path, size } => MessageView::DirEntrySize {
                job_id: *job_id,
                path: path@,
                size: *size,
            },
            ScanMessage::Done { job_id } => MessageView::Done { job_id: *job_id },
            ScanMessage::Error { job_id, message } => MessageView::Error {
                job_id: *job_id,
                message: message@,
            },
        }
    }
}

impl Clone for ScanMessage {
    fn clone(&self) -> (r: Self)
        ensures
            r == *self,
    {
        match self {
            ScanMessage::Progress { job_id, progress, path } => ScanMessage::Progress {
                job_id: *job_id,
                progress: *progress,
                path: path.clone(),
            },
            ScanMessage::RootItem { job_id, entry } => ScanMessage::RootItem {
                job_id: *job_id,
                entry: entry.clone(),
            },
            ScanMessage::DirEntry { job_id, entry } => ScanMessage::DirEntry {
                job_id: *job_id,
                entry: entry.clone(),
            },
            ScanMessage::DirEntrySize { job_id, path, size } => ScanMessage::DirEntrySize {
                job_id: *job_id,
                path: path.clone(),
                size: *size,
            },
            ScanMessage::Done { job_id } => ScanMessage::Done { job_id: *job_id },
            ScanMessage::Error { job_id, message } => ScanMessage::Error {
                job_id: *job_id,
                message: message.clone(),
            },
        }
    }
}

impl ScanMessage {
    pub fn job_id(&self) -> (id: u64)
        ensures
            id == self@.job(),
    {
        match self {
            ScanMessage::Progress { job_id, .. } => *job_id,
            ScanMessage::RootItem { job_id, .. } => *job_id,
            ScanMessage::DirEntry { job_id, .. } => *job_id,
            ScanMessage::DirEntrySize { job_id, .. } => *job_id,
            ScanMessage::Done { job_id } => *job_id,
            ScanMessage::Error { job_id, .. } => *job_id,
        }
    }

    /// Whether the message ends its job's stream.
    pub fn is_terminal(&self) -> (r: bool)
        ensures
            r == self@.is_terminal(),
    {
        match self {
            ScanMessage::Done { .. } => true,
            ScanMessage::Error { .. } => true,
            _ => false,
        }
    }
}

/// The share of `scale` that `index` of `total` steps make, rounded down: a
/// `total` of zero counts as one, and the result is never above `scale`.
pub open spec fn percent_of(index: int, total: int, scale: int) -> int {
    let t = if total <= 0 {
        1
    } else {
        total
    };
    let p = (index * scale) / t;
    if p > scale {
        scale
    } else {
        p
    }
}

/// The progress to report when `index` of `total` steps are done and the
/// whole phase is worth `scale` percent.
pub fn progress_percent(index: usize, total: usize, scale: u8) -> (p: u8)
    ensures
        p == percent_of(index as int, total as int, scale as int),
        p <= scale,
{
    let t: u128 = if total == 0 {
        1
    } else {
        total as u128
    };
    assert(0 <= (index as int) * (scale as int) <= 0xffff_ffff_ffff_ffff * 255) by (nonlinear_arith)
        requires
            0 <= index <= 0xffff_ffff_ffff_ffff,
            0 <= scale <= 255,
    ;
    let product: u128 = (index as u128) * (scale as u128);
    let p: u128 = product / t;
    if p > scale as u128 {
        scale
    } else {
        p as u8
    }
}

/// The values of a sequence of messages, in order.
pub open spec fn message_views(messages: Seq<ScanMessage>) -> Seq<MessageView> {
    messages.map_values(|m: ScanMessage| m@)
}

/// A stream of one job is well formed when every message carries the job's
/// id and a terminal message, if there is one, is the last message.
pub open spec fn stream_ok(stream: Seq<MessageView>, job_id: u64) -> bool {
    &&& forall|i: int| 0 <= i < stream.len() ==> (#[trigger] stream[i]).job() == job_id
    &&& forall|i: int|
        0 <= i < stream.len() && (#[trigger] stream[i]).is_terminal() ==> i == stream.len() - 1
}

/// Whether the stream has reached its terminal message.
pub open spec fn stream_ended(stream: Seq<MessageView>) -> bool {
    stream.len() > 0 && stream.last().is_terminal()
}

/// In a well-formed stream the terminal message is unique and nothing
/// follows it: of two positions, the earlier one is never terminal.
pub proof fn lemma_terminal_unique_and_last(stream: Seq<MessageView>, job_id: u64, i: int, j: int)
    requires
        stream_ok(stream, job_id),
        0 <= i < j < stream.len(),
    ensures
        !stream[i].is_terminal(),
{
}

/// A well-formed stream that has not ended stays well formed when messages
/// of the same job are appended, provided that only the last of them may be
/// terminal.
pub proof fn lemma_stream_extend(stream: Seq<MessageView>, more: Seq<MessageView>, job_id: u64)
    requires
        stream_ok(stream, job_id),
        more.len() > 0 ==> !stream_ended(stream),
        stream_ok(more, job_id),
    ensures
        stream_ok(stream + more, job_id),
{
}

/// The mathematical value of a [`TargetCandidate`].
pub struct CandidateView {
    pub category: ItemCategory,
    pub path: Seq<char>,
    pub conditional: bool,
}

/// A location the catalog scan may visit.
#[derive(Debug)]
pub struct TargetCandidate {
    pub category: ItemCategory,
    pub path: String,
    /// Whether the location is scanned only where it exists on disk.
    pub conditional: bool,
}

impl View for TargetCandidate {
    type V = CandidateView;

    open spec fn view(&self) -> CandidateView {
        CandidateView { category: self.category, path: self.path@, conditional: self.conditional }
    }
}

/// The location `rel` below `home`, scanned always.
pub open spec fn always(category: ItemCategory, home: Seq<char>, rel: Seq<char>) -> CandidateView {
    CandidateView { category, path: path_join(home, rel), conditional: false }
}

/// The location `rel` below `home`, scanned where it exists.
pub open spec fn where_present(category: ItemCategory, home: Seq<char>, rel: Seq<char>)
    -> CandidateView {
    CandidateView { category, path: path_join(home, rel), conditional: true }
}

/// The built-in part of the catalog for the home directory `home`: caches,
/// logs, temporary directories, downloads and trash, which are always
/// scanned, then the caches of development tools, which are scanned where
/// they exist.
pub open spec fn builtin_catalog(home: Seq<char>) -> Seq<CandidateView> {
    seq![
        always(ItemCategory::SystemCache, home, "Library/Caches"@),
        always(ItemCategory::Logs, home, "Library/Logs"@),
        always(ItemCategory::Temp, Seq::empty(), "/tmp"@),
        always(ItemCategory::Temp, Seq::empty(), "/var/tmp"@),
        always(ItemCategory::Downloads, home, "Downloads"@),
        always(ItemCategory::Trash, home, ".Trash"@),
        where_present(ItemCategory::XcodeDerivedData, home, "Library/Developer/Xcode/DerivedData"@),
        where_present(ItemCategory::HomebrewCache, home, "Library/Caches/Homebrew"@),
        where_present(ItemCategory::CocoaPods, home, "Library/Caches/CocoaPods"@),
        where_present(ItemCategory::NpmCache, home, ".npm/_cacache"@),
        where_present(ItemCategory::PipCache, home, "Library/Caches/pip"@),
        where_present(
            ItemCategory::DockerData,
            home,
            "Library/Containers/com.docker.docker/Data"@,
        ),
        where_present(ItemCategory::CargoCache, home, ".cargo/registry/cache"@),
    ]
}

/// A location the user configured, scanned where it exists.
pub open spec fn custom_candidate(path: Seq<char>) -> CandidateView {
    CandidateView { category: ItemCategory::Custom, path, conditional: true }
}

/// The candidates for the locations the user configured.
pub open spec fn custom_candidates(extras: Seq<Seq<char>>) -> Seq<CandidateView> {
    extras.map_values(|p: Seq<char>| custom_candidate(p))
}

/// The whole catalog: the built-in part, then the locations the user
/// configured.
pub open spec fn catalog(home: Seq<char>, extras: Seq<Seq<char>>) -> Seq<CandidateView> {
    builtin_catalog(home) + custom_candidates(extras)
}

/// Whether the candidate at position `i` is scanned, given which candidates
/// are present on disk. A position that `present` does not cover counts as
/// absent.
pub open spec fn is_kept(c: CandidateView, present: Seq<bool>, i: int) -> bool {
    !c.conditional || (0 <= i < present.len() && present[i])
}

/// The targets of a scan: the candidates that are scanned, in catalog order.
pub open spec fn kept_targets(candidates: Seq<CandidateView>, present: Seq<bool>) -> Seq<
    (ItemCategory, Seq<char>),
>
    decreases candidates.len(),
{
    if candidates.len() == 0 {
        Seq::empty()
    } else {
        let rest = kept_targets(candidates.drop_last(), present);
        let last = candidates.last();
        if is_kept(last, present, candidates.len() - 1) {
            rest.push((last.category, last.path))
        } else {
            rest
        }
    }
}

/// The values of a sequence of paths.
pub open spec fn path_views(paths: Seq<String>) -> Seq<Seq<char>> {
    paths.map_values(|p: String| p@)
}

/// The values of a sequence of candidates.
pub open spec fn candidate_views(candidates: Seq<TargetCandidate>) -> Seq<CandidateView> {
    candidates.map_values(|c: TargetCandidate| c@)
}

/// The values of a walk.
pub open spec fn walk_views(entries: Seq<WalkEntry>) -> Seq<crate::walk::WalkEntryView> {
    entries.map_values(|e: WalkEntry| e@)
}

/// Knows where to look for reclaimable space.
pub struct Scanner {
    home_dir: String,
    extra_targets: Vec<String>,
}

impl Scanner {
    /// The home directory the catalog is built on.
    pub closed spec fn home(self) -> Seq<char> {
        self.home_dir@
    }

    /// The locations the user configured.
    pub closed spec fn extras(self) -> Seq<Seq<char>> {
        path_views(self.extra_targets@)
    }

    /// A scanner for the home directory of the user, without configured
    /// locations; `None` where the system names no home directory. The
    /// scanner is the one that [`Scanner::from_home`] builds on whatever
    /// home directory the system names.
    pub fn new() -> (r: Option<Self>)
        ensures
            exists|home: Option<Seq<char>>| built_on(r, home, Seq::<Seq<char>>::empty()),
            r is Some ==> r.unwrap().extras() == Seq::<Seq<char>>::empty(),
    {
        let none: Vec<String> = Vec::new();
        assert(path_views(none@) =~= Seq::<Seq<char>>::empty());
        Scanner::with_extra_targets(none)
    }

    /// A scanner for the home directory of the user, with the configured
    /// locations `extra_targets`; `None` where the system names no home
    /// directory. The scanner is the one that [`Scanner::from_home`] builds
    /// on whatever home directory the system names.
    pub fn with_extra_targets(extra_targets: Vec<String>) -> (r: Option<Self>)
        ensures
            exists|home: Option<Seq<char>>| built_on(r, home, path_views(extra_targets@)),
            r is Some ==> r.unwrap().extras() == path_views(extra_targets@),
    {
        let home = resolve_home_dir();
        let r = Scanner::from_home(home, extra_targets);
        assert(built_on(r, opt_string_text(home), path_views(extra_targets@)));
        r
    }

    /// A scanner for the home directory `home`, with the configured
    /// locations `extra_targets`; `None` where no home directory is known.
    pub fn from_home(home: Option<String>, extra_targets: Vec<String>) -> (r: Option<Self>)
        ensures
            built_on(r, opt_string_text(home), path_views(extra_targets@)),
    {
        match home {
            Some(home_dir) => Some(Scanner { home_dir, extra_targets }),
            None => None,
        }
    }

    /// A scanner for the home directory `home_dir`.
    pub fn with_home(home_dir: String, extra_targets: Vec<String>) -> (s: Self)
        ensures
            s.home() == home_dir@,
            s.extras() == path_views(extra_targets@),
    {
        Scanner { home_dir, extra_targets }
    }

    pub fn home_dir(&self) -> (home: &String)
        ensures
            home@ == self.home(),
    {
        &self.home_dir
    }

    /// Every location the catalog scan may visit, in scan order.
    pub fn candidate_targets(&self) -> (r: Vec<TargetCandidate>)
        ensures
            candidate_views(r@) == catalog(self.home(), self.extras()),
    {
        let home = self.home_dir.as_str();
        let mut r: Vec<TargetCandidate> = Vec::new();
        r.push(below(ItemCategory::SystemCache, home, "Library/Caches", false));
        r.push(below(ItemCategory::Logs, home, "Library/Logs", false));
        r.push(below(ItemCategory::Temp, "", "/tmp", false));
        r.push(below(ItemCategory::Temp, "", "/var/tmp", false));
        r.push(below(ItemCategory::Downloads, home, "Downloads", false));
        r.push(below(ItemCategory::Trash, home, ".Trash", false));
        r.push(
            below(
                ItemCategory::XcodeDerivedData,
                home,
                "Library/Developer/Xcode/DerivedData",
                true,
            ),
        );
        r.push(below(ItemCategory::HomebrewCache, home, "Library/Caches/Homebrew", true));
        r.push(below(ItemCategory::CocoaPods, home, "Library/Caches/CocoaPods", true));
        r.push(below(ItemCategory::NpmCache, home, ".npm/_cacache", true));
        r.push(below(ItemCategory::PipCache, home, "Library/Caches/pip", true));
        r.push(
            below(
                ItemCategory::DockerData,
                home,
                "Library/Containers/com.docker.docker/Data",
                true,
            ),
        );
        r.push(below(ItemCategory::CargoCache, home, ".cargo/registry/cache", true));
        proof {
            reveal_strlit("");
        }
        let ghost builtin = candidate_views(r@);
        let mut i: usize = 0;
        while i < self.extra_targets.len()
            invariant
                i <= self.extra_targets.len(),
                builtin == builtin_catalog(self.home()),
                candidate_views(r@) == builtin + custom_candidates(
                    self.extras().subrange(0, i as int),
                ),
            decreases self.extra_targets.len() - i,
        {
            let path = self.extra_targets[i].clone();
            let ghost before = candidate_views(r@);
            r.push(TargetCandidate { category: ItemCategory::Custom, path, conditional: true });
            assert(candidate_views(r@) =~= before.push(custom_candidate(path@)));
            i += 1;
        }
        r
    }

    /// The targets of a catalog scan. `present` says of each candidate, in
    /// the order of [`Scanner::candidate_targets`], whether it exists on
    /// disk.
    pub fn get_scan_targets(&self, present: &Vec<bool>) -> (r: Vec<(ItemCategory, String)>)
        ensures
            target_views(r@) == kept_targets(catalog(self.home(), self.extras()), present@),
    {
        let mut candidates = self.candidate_targets();
        let ghost all = candidate_views(candidates@);
        let total = candidates.len();
        let mut r: Vec<(ItemCategory, String)> = Vec::new();
        let mut i: usize = 0;
        while i < total
            invariant
                i <= total,
                total == candidates.len(),
                all == candidate_views(candidates@),
                target_views(r@) == kept_targets(all.subrange(0, i as int), present@),
            decreases total - i,
        {
            let keep = !candidates[i].conditional || (i < present.len() && present[i]);
            assert(all.subrange(0, i + 1).drop_last() =~= all.subrange(0, i as int));
            if keep {
                let category = candidates[i].category;
                let path = candidates[i].path.clone();
                r.push((category, path));
            }
            i += 1;
        }
        assert(all.subrange(0, i as int) =~= all);
        r
    }

    /// The bytes of the regular files of a completed walk of a directory;
    /// zero for the walk of a path that does not exist.
    pub fn scan_directory(&self, walk: &Vec<WalkEntry>) -> (bytes: u64)
        ensures
            bytes == sat_u64(walk_bytes(walk_views(walk@))),
    {
        calc_dir_size(walk)
    }

    /// Begins the scan of the catalog for job `job_id`. `present` says which
    /// candidates exist on disk, and `current` whether the job is still the
    /// accepted one.
    pub fn scan_root_with_progress(&self, job_id: u64, present: &Vec<bool>, current: bool) -> (scan:
        PresetScan)
        ensures
            scan@ == PresetScanState::initial(
                job_id,
                kept_targets(catalog(self.home(), self.extras()), present@),
                current,
            ),
            scan@.inv(),
    {
        PresetScan::start(job_id, self.get_scan_targets(present), current)
    }

    /// Begins the listing of the immediate children of `path` for job
    /// `job_id`.
    pub fn scan_dir_listing(&self, job_id: u64, path: String, current: bool) -> (scan: DirScan)
        ensures
            scan@ == DirScanState::listing(job_id, path@, current),
            scan@.inv(),
    {
        DirScan::start_listing(job_id, path, current)
    }

    /// Begins the disk scan of `path` for job `job_id`, and returns the scan
    /// with its first messages.
    pub fn scan_disk_with_progress(
        &self,
        job_id: u64,
        path: String,
        probe: PathProbe,
        current: bool,
    ) -> (r: (DirScan, Vec<ScanMessage>))
        ensures
            r.0@ == DirScanState::disk(job_id, path@, probe, current),
            message_views(r.1@) == r.0@.sent,
            r.0@.inv(),
    {
        DirScan::start_disk(job_id, path, probe, current)
    }
}

/// The candidate `rel` below `base`.
fn below(category: ItemCategory, base: &str, rel: &str, conditional: bool) -> (c: TargetCandidate)
    ensures
        c@ == (CandidateView { category, path: path_join(base@, rel@), conditional }),
{
    TargetCandidate { category, path: join_path(base, rel), conditional }
}

/// The text in which a number of bytes is shown to the user.
pub uninterp spec fn byte_size_text(bytes: u64) -> Seq<char>;

/// Trusted: calls `bytesize::ByteSize::b` and formats the value with its
/// `Display` impl, which renders a number of bytes in binary units with one
/// decimal. The text depends on the number alone.
#[verifier::external_body]
fn byte_size_display(bytes: u64) -> (text: String)
    ensures
        text@ == byte_size_text(bytes),
{
    bytesize::ByteSize::b(bytes).to_string()
}

/// Formats a number of bytes for people to read.
pub fn format_size(bytes: u64) -> (text: String)
    ensures
        text@ == byte_size_text(bytes),
{
    byte_size_display(bytes)
}

/// Whether `r` is what is built on the home directory `home` with the
/// configured locations `extras`: a scanner for that home directory and
/// those locations where a home directory is known, and nothing where none
/// is.
pub open spec fn built_on(r: Option<Scanner>, home: Option<Seq<char>>, extras: Seq<Seq<char>>)
    -> bool {
    match home {
        Some(h) => r is Some && r.unwrap().home() == h && r.unwrap().extras() == extras,
        None => r is None,
    }
}

} // verus!
