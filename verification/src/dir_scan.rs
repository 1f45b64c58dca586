//! The scan of one directory: its immediate children first, then the size of
//! each child directory.
//!
//! The scan is a state machine. Whoever reads the filesystem feeds it one
//! event for each thing read, together with whether the job was still the
//! accepted one at that moment, and sends on the messages it hands back. A
//! scan that sees its job superseded stops for good and says nothing more,
//! not even a terminal message.

use vstd::prelude::*;
use vstd::string::*;
use crate::app::{CleanableEntry, EntryKind, EntryView};
use crate::scanner::{
    MessageView,
    ScanMessage,
    message_views,
    percent_of,
    progress_percent,
    stream_ended,
    stream_ok,
};
use crate::text::join2;
use crate::text::join4;
use crate::walk::NodeKind;

verus! {

/// What was found out about the path of a disk scan before reading it.
#[derive(Debug, Clone, Copy, PartialEq, Eq, Structural)]
pub struct PathProbe {
    pub exists: bool,
    pub is_dir: bool,
}

/// The mathematical value of a [`DirChild`].
pub struct DirChildView {
    pub path: Seq<char>,
    pub name: Seq<char>,
    pub kind: NodeKind,
    pub size: Option<u64>,
    pub modified_at: Option<u64>,
}

/// One immediate child of the scanned directory, as read from disk.
#[derive(Debug)]
pub struct DirChild {
    pub path: String,
    pub name: String,
    pub kind: NodeKind,
    /// The length in bytes, where the metadata could be read.
    pub size: Option<u64>,
    /// Last modification, in seconds since 1970-01-01 00:00:00 UTC.
    pub modified_at: Option<u64>,
}

impl View for DirChild {
    type V = DirChildView;

    open spec fn view(&self) -> DirChildView {
        DirChildView {
            path: self.path@,
            name: self.name@,
            kind: self.kind,
            size: self.size,
            modified_at: self.modified_at,
        }
    }
}

/// The entry reported for a child that is a directory or a regular file. A
/// directory is reported without a size, which follows later.
pub open spec fn child_entry(c: DirChildView) -> EntryView {
    EntryView {
        kind: if c.kind == NodeKind::Directory {
            EntryKind::Directory
        } else {
            EntryKind::File
        },
        category: None,
        path: c.path,
        name: c.name,
        size: if c.kind == NodeKind::Directory {
            None
        } else {
            c.size
        },
        modified_at: c.modified_at,
    }
}

/// Where a directory scan stands.
#[derive(Debug, Clone, Copy, PartialEq, Eq, Structural)]
pub enum ScanPhase {
    /// Waiting to learn whether the directory could be opened.
    Opening,
    /// Taking the children one by one.
    Listing,
    /// Taking the sizes of the child directories.
    Sizing,
    /// The terminal message was emitted.
    Finished,
    /// The job was superseded; nothing more is emitted.
    Stopped,
}

/// The mathematical value of a [`DirScanEvent`].
pub enum DirScanEventView {
    ListingFailed { error: Seq<char> },
    ListingOpened { total: usize },
    Child { child: DirChildView },
    ListingDone,
    DirSized { path: Seq<char>, size: u64 },
    SizingDone,
}

/// What the reader of the filesystem reports to a directory scan.
#[derive(Debug)]
pub enum DirScanEvent {
    /// The directory could not be opened; `error` says why.
    ListingFailed { error: String },
    /// The directory was opened. `total` is the number of children, where it
    /// is known beforehand; only a disk scan uses it, for its progress.
    ListingOpened { total: usize },
    /// The next child.
    Child { child: DirChild },
    /// There are no more children.
    ListingDone,
    /// The bytes below one child directory.
    DirSized { path: String, size: u64 },
    /// Every child directory was sized.
    SizingDone,
}

impl View for DirScanEvent {
    type V = DirScanEventView;

    open spec fn view(&self) -> DirScanEventView {
        match self {
            DirScanEvent::ListingFailed { error } => DirScanEventView::ListingFailed {
                error: error@,
            },
            DirScanEvent::ListingOpened { total } => DirScanEventView::ListingOpened {
                total: *total,
            },
            DirScanEvent::Child { child } => DirScanEventView::Child { child: child@ },
            DirScanEvent::ListingDone => DirScanEventView::ListingDone,
            DirScanEvent::DirSized { path, size } => DirScanEventView::DirSized {
                path: path@,
                size: *size,
            },
            DirScanEvent::SizingDone => DirScanEventView::SizingDone,
        }
    }
}

/// The text of the error for a directory that could not be opened.
pub open spec fn unreadable_text(path: Seq<char>, error: Seq<char>) -> Seq<char> {
    "无法读取目录 "@ + path + ": "@ + error
}

/// The text of the error for a path that does not exist.
pub open spec fn missing_text(path: Seq<char>) -> Seq<char> {
    "路径不存在: "@ + path
}

/// The text of the error for a path that is not a directory.
pub open spec fn not_a_directory_text(path: Seq<char>) -> Seq<char> {
    "不是目录: "@ + path
}

/// The text shown while the child directories are being sized.
pub open spec fn sizing_text() -> Seq<char> {
    "并行计算目录大小..."@
}

/// The mathematical value of a [`DirScan`].
pub struct DirScanState {
    pub job_id: u64,
    /// A disk scan reports its children as top-level entries and reports
    /// progress; a listing does neither.
    pub top_level: bool,
    pub path: Seq<char>,
    pub phase: ScanPhase,
    /// The number of children taken so far.
    pub index: usize,
    /// The number of children announced.
    pub total: usize,
    /// The child directories met so far, in order.
    pub dirs: Seq<Seq<char>>,
    /// Every message emitted so far, in order.
    pub sent: Seq<MessageView>,
}

impl DirScanState {
    /// Whether the scan still takes events.
    pub open spec fn active(self) -> bool {
        self.phase == ScanPhase::Opening || self.phase == ScanPhase::Listing || self.phase
            == ScanPhase::Sizing
    }

    /// Whether the event belongs to the phase the scan is in.
    pub open spec fn accepts(self, ev: DirScanEventView) -> bool {
        match ev {
            DirScanEventView::ListingFailed { .. } => self.phase == ScanPhase::Opening,
            DirScanEventView::ListingOpened { .. } => self.phase == ScanPhase::Opening,
            DirScanEventView::Child { .. } => self.phase == ScanPhase::Listing,
            DirScanEventView::ListingDone => self.phase == ScanPhase::Listing,
            DirScanEventView::DirSized { .. } => self.phase == ScanPhase::Sizing,
            DirScanEventView::SizingDone => self.phase == ScanPhase::Sizing,
        }
    }

    /// The message that reports an entry.
    pub open spec fn item(self, entry: EntryView) -> MessageView {
        if self.top_level {
            MessageView::RootItem { job_id: self.job_id, entry }
        } else {
            MessageView::DirEntry { job_id: self.job_id, entry }
        }
    }

    /// The messages for one child: in a disk scan the progress first, which
    /// covers the lower half of the scale; then the entry, where the child is
    /// a directory or a regular file.
    pub open spec fn child_output(self, c: DirChildView) -> Seq<MessageView> {
        let progress = if self.top_level {
            seq![
                MessageView::Progress {
                    job_id: self.job_id,
                    progress: percent_of(self.index as int, self.total as int, 50) as u8,
                    path: c.path,
                },
            ]
        } else {
            Seq::<MessageView>::empty()
        };
        let entry = if c.kind == NodeKind::Directory || c.kind == NodeKind::File {
            seq![self.item(child_entry(c))]
        } else {
            Seq::<MessageView>::empty()
        };
        progress + entry
    }

    /// The messages emitted for an accepted event.
    pub open spec fn output(self, ev: DirScanEventView) -> Seq<MessageView> {
        match ev {
            DirScanEventView::ListingFailed { error } => seq![
                MessageView::Error {
                    job_id: self.job_id,
                    message: unreadable_text(self.path, error),
                },
            ],
            DirScanEventView::ListingOpened { .. } => Seq::<MessageView>::empty(),
            DirScanEventView::Child { child } => self.child_output(child),
            DirScanEventView::ListingDone => if self.top_level {
                seq![
                    MessageView::Progress {
                        job_id: self.job_id,
                        progress: 50,
                        path: sizing_text(),
                    },
                ]
            } else {
                Seq::<MessageView>::empty()
            },
            DirScanEventView::DirSized { path, size } => seq![
                MessageView::DirEntrySize { job_id: self.job_id, path, size },
            ],
            DirScanEventView::SizingDone => seq![MessageView::Done { job_id: self.job_id }],
        }
    }

    /// The state after an accepted event, the emitted messages aside.
    pub open spec fn advanced(self, ev: DirScanEventView) -> DirScanState {
        match ev {
            DirScanEventView::ListingFailed { .. } => DirScanState {
                phase: ScanPhase::Finished,
                ..self
            },
            DirScanEventView::ListingOpened { total } => DirScanState {
                phase: ScanPhase::Listing,
                total,
                ..self
            },
            DirScanEventView::Child { child } => DirScanState {
                index: if self.index < usize::MAX {
                    (self.index + 1) as usize
                } else {
                    self.index
                },
                dirs: if child.kind == NodeKind::Directory {
                    self.dirs.push(child.path)
                } else {
                    self.dirs
                },
                ..self
            },
            DirScanEventView::ListingDone => DirScanState { phase: ScanPhase::Sizing, ..self },
            DirScanEventView::DirSized { .. } => self,
            DirScanEventView::SizingDone => DirScanState { phase: ScanPhase::Finished, ..self },
        }
    }

    /// One step of the scan: the state it leaves and the messages it emits.
    /// A scan that is finished or stopped ignores everything. A scan that
    /// learns that its job is no longer current stops. An event that does
    /// not belong to the phase is ignored.
    pub open spec fn step(self, ev: DirScanEventView, current: bool) -> (
        DirScanState,
        Seq<MessageView>,
    ) {
        if !self.active() {
            (self, Seq::<MessageView>::empty())
        } else if !current {
            (DirScanState { phase: ScanPhase::Stopped, ..self }, Seq::<MessageView>::empty())
        } else if !self.accepts(ev) {
            (self, Seq::<MessageView>::empty())
        } else {
            let out = self.output(ev);
            (DirScanState { sent: self.sent + out, ..self.advanced(ev) }, out)
        }
    }

    /// What holds of every scan at every moment: its stream is well formed,
    /// and it has emitted its terminal message exactly when it is finished.
    pub open spec fn inv(self) -> bool {
        &&& stream_ok(self.sent, self.job_id)
        &&& stream_ended(self.sent) <==> self.phase == ScanPhase::Finished
    }

    /// The state of a listing that has just begun.
    pub open spec fn listing(job_id: u64, path: Seq<char>, current: bool) -> DirScanState {
        DirScanState {
            job_id,
            top_level: false,
            path,
            phase: if current {
                ScanPhase::Opening
            } else {
                ScanPhase::Stopped
            },
            index: 0,
            total: 0,
            dirs: Seq::empty(),
            sent: Seq::empty(),
        }
    }

    /// What a disk scan emits when it begins: an error where the path does
    /// not exist or is no directory, else the progress of zero percent.
    pub open spec fn disk_opening(job_id: u64, path: Seq<char>, probe: PathProbe) -> MessageView {
        if !probe.exists {
            MessageView::Error { job_id, message: missing_text(path) }
        } else if !probe.is_dir {
            MessageView::Error { job_id, message: not_a_directory_text(path) }
        } else {
            MessageView::Progress { job_id, progress: 0, path }
        }
    }

    /// The state of a disk scan that has just begun.
    pub open spec fn disk(job_id: u64, path: Seq<char>, probe: PathProbe, current: bool)
        -> DirScanState {
        DirScanState {
            job_id,
            top_level: true,
            path,
            phase: if !current {
                ScanPhase::Stopped
            } else if probe.exists && probe.is_dir {
                ScanPhase::Opening
            } else {
                ScanPhase::Finished
            },
            index: 0,
            total: 0,
            dirs: Seq::empty(),
            sent: if current {
                seq![Self::disk_opening(job_id, path, probe)]
            } else {
                Seq::empty()
            },
        }
    }
}

/// A scan that has just begun has a well-formed stream.
pub proof fn lemma_dir_scan_starts_well(
    job_id: u64,
    path: Seq<char>,
    probe: PathProbe,
    current: bool,
)
    ensures
        DirScanState::listing(job_id, path, current).inv(),
        DirScanState::disk(job_id, path, probe, current).inv(),
{
}

/// No step of a directory scan breaks its stream: whatever event arrives,
/// in whatever phase, the messages emitted so far stay a well-formed
/// stream, in which nothing follows the terminal message.
pub proof fn lemma_dir_scan_step_keeps_stream(s: DirScanState, ev: DirScanEventView, current: bool)
    requires
        s.inv(),
    ensures
        s.step(ev, current).0.inv(),
        s.step(ev, current).0.sent == s.sent + s.step(ev, current).1,
        s.step(ev, current).0.job_id == s.job_id,
        !s.active() ==> s.step(ev, current).1.len() == 0,
{
    let (t, out) = s.step(ev, current);
}

/// The state of a scan after a sequence of events, each with whether the
/// job was current when it arrived.
pub open spec fn dir_scan_after(s: DirScanState, events: Seq<(DirScanEventView, bool)>)
    -> DirScanState
    decreases events.len(),
{
    if events.len() == 0 {
        s
    } else {
        dir_scan_after(s, events.drop_last()).step(events.last().0, events.last().1).0
    }
}

/// Every scan of a directory emits a well-formed stream: whatever is read
/// and whenever the job is superseded, all messages carry the number of
/// the job, and the terminal message, if one is emitted, is the only one
/// and the last.
pub proof fn lemma_dir_scan_stream(
    job_id: u64,
    path: Seq<char>,
    probe: PathProbe,
    current: bool,
    events: Seq<(DirScanEventView, bool)>,
)
    ensures
        stream_ok(
            dir_scan_after(DirScanState::listing(job_id, path, current), events).sent,
            job_id,
        ),
        stream_ok(
            dir_scan_after(DirScanState::disk(job_id, path, probe, current), events).sent,
            job_id,
        ),
        dir_scan_after(DirScanState::listing(job_id, path, current), events).inv(),
        dir_scan_after(DirScanState::disk(job_id, path, probe, current), events).inv(),
        dir_scan_after(DirScanState::listing(job_id, path, current), events).job_id == job_id,
        dir_scan_after(DirScanState::disk(job_id, path, probe, current), events).job_id == job_id,
    decreases events.len(),
{
    lemma_dir_scan_starts_well(job_id, path, probe, current);
    if events.len() > 0 {
        lemma_dir_scan_stream(job_id, path, probe, current, events.drop_last());
        lemma_dir_scan_step_keeps_stream(
            dir_scan_after(DirScanState::listing(job_id, path, current), events.drop_last()),
            events.last().0,
            events.last().1,
        );
        lemma_dir_scan_step_keeps_stream(
            dir_scan_after(DirScanState::disk(job_id, path, probe, current), events.drop_last()),
            events.last().0,
            events.last().1,
        );
    }
}

/// A running scan of one directory.
pub struct DirScan {
    job_id: u64,
    top_level: bool,
    path: String,
    phase: ScanPhase,
    index: usize,
    total: usize,
    dirs: Vec<String>,
    sent: Ghost<Seq<MessageView>>,
}

impl View for DirScan {
    type V = DirScanState;

    closed spec fn view(&self) -> DirScanState {
        DirScanState {
            job_id: self.job_id,
            top_level: self.top_level,
            path: self.path@,
            phase: self.phase,
            index: self.index,
            total: self.total,
            dirs: self.dirs@.map_values(|d: String| d@),
            sent: self.sent@,
        }
    }
}

impl DirScan {
    #[verifier::type_invariant]
    spec fn stream_well_formed(self) -> bool {
        self@.inv()
    }

    /// Begins the listing of `path` for job `job_id`. `current` says whether
    /// the job is still the accepted one.
    pub fn start_listing(job_id: u64, path: String, current: bool) -> (scan: Self)
        ensures
            scan@ == DirScanState::listing(job_id, path@, current),
            scan@.inv(),
    {
        let scan = DirScan {
            job_id,
            top_level: false,
            path,
            phase: if current {
                ScanPhase::Opening
            } else {
                ScanPhase::Stopped
            },
            index: 0,
            total: 0,
            dirs: Vec::new(),
            sent: Ghost(Seq::empty()),
        };
        assert(scan@.dirs =~= Seq::<Seq<char>>::empty());
        scan
    }

    /// Begins the disk scan of `path` for job `job_id`, and returns the scan
    /// with its first messages. A path that does not exist or is no
    /// directory ends the scan at once with an error.
    pub fn start_disk(job_id: u64, path: String, probe: PathProbe, current: bool) -> (r: (
        Self,
        Vec<ScanMessage>,
    ))
        ensures
            r.0@ == DirScanState::disk(job_id, path@, probe, current),
            message_views(r.1@) == r.0@.sent,
            r.0@.inv(),
    {
        let mut out: Vec<ScanMessage> = Vec::new();
        let mut phase = ScanPhase::Stopped;
        if current {
            if !probe.exists {
                let message = join2("路径不存在: ", path.as_str());
                out.push(ScanMessage::Error { job_id, message });
                phase = ScanPhase::Finished;
            } else if !probe.is_dir {
                let message = join2("不是目录: ", path.as_str());
                out.push(ScanMessage::Error { job_id, message });
                phase = ScanPhase::Finished;
            } else {
                out.push(ScanMessage::Progress { job_id, progress: 0, path: path.clone() });
                phase = ScanPhase::Opening;
            }
        }
        let ghost sent = message_views(out@);
        proof {
            let want = DirScanState::disk(job_id, path@, probe, current);
            assert(sent =~= want.sent);
        }
        let scan = DirScan {
            job_id,
            top_level: true,
            path,
            phase,
            index: 0,
            total: 0,
            dirs: Vec::new(),
            sent: Ghost(sent),
        };
        assert(scan@.dirs =~= Seq::<Seq<char>>::empty());
        (scan, out)
    }

    /// Takes one event and returns the messages to send, in order.
    pub fn step(&mut self, event: DirScanEvent, current: bool) -> (out: Vec<ScanMessage>)
        ensures
            final(self)@ == old(self)@.step(event@, current).0,
            message_views(out@) == old(self)@.step(event@, current).1,
            final(self)@.sent == old(self)@.sent + message_views(out@),
            final(self)@.inv(),
    {
        proof {
            use_type_invariant(&*self);
        }
        let ghost before = self@;
        let ghost want = before.step(event@, current);
        let mut out: Vec<ScanMessage> = Vec::new();
        let active = match self.phase {
            ScanPhase::Opening => true,
            ScanPhase::Listing => true,
            ScanPhase::Sizing => true,
            _ => false,
        };
        if !active {
            return out;
        }
        if !current {
            self.phase = ScanPhase::Stopped;
            return out;
        }
        let job_id = self.job_id;
        match event {
            DirScanEvent::ListingFailed { error } => {
                if self.phase == ScanPhase::Opening {
                    let message = join4(
                        "无法读取目录 ",
                        self.path.as_str(),
                        ": ",
                        error.as_str(),
                    );
                    out.push(ScanMessage::Error { job_id, message });
                    self.finish_with(ScanPhase::Finished, Ghost(want.0));
                }
            },
            DirScanEvent::ListingOpened { total } => {
                if self.phase == ScanPhase::Opening {
                    self.total = total;
                    self.phase = ScanPhase::Listing;
                }
            },
            DirScanEvent::Child { child } => {
                if self.phase == ScanPhase::Listing {
                    if self.top_level {
                        let progress = progress_percent(self.index, self.total, 50);
                        out.push(
                            ScanMessage::Progress { job_id, progress, path: child.path.clone() },
                        );
                    }
                    let is_dir = child.kind == NodeKind::Directory;
                    let is_file = child.kind == NodeKind::File;
                    let mut dir_path: Option<String> = None;
                    if is_dir {
                        dir_path = Some(child.path.clone());
                    }
                    if is_dir || is_file {
                        let entry = CleanableEntry {
                            kind: if is_dir {
                                EntryKind::Directory
                            } else {
                                EntryKind::File
                            },
                            category: None,
                            path: child.path,
                            name: child.name,
                            size: if is_dir {
                                None
                            } else {
                                child.size
                            },
                            modified_at: child.modified_at,
                        };
                        if self.top_level {
                            out.push(ScanMessage::RootItem { job_id, entry });
                        } else {
                            out.push(ScanMessage::DirEntry { job_id, entry });
                        }
                    }
                    self.take_child(dir_path, Ghost(want.0));
                }
            },
            DirScanEvent::ListingDone => {
                if self.phase == ScanPhase::Listing {
                    if self.top_level {
                        out.push(
                            ScanMessage::Progress {
                                job_id,
                                progress: 50,
                                path: String::from_str("并行计算目录大小..."),
                            },
                        );
                    }
                    self.finish_with(ScanPhase::Sizing, Ghost(want.0));
                }
            },
            DirScanEvent::DirSized { path, size } => {
                if self.phase == ScanPhase::Sizing {
                    out.push(ScanMessage::DirEntrySize { job_id, path, size });
                    self.finish_with(ScanPhase::Sizing, Ghost(want.0));
                }
            },
            DirScanEvent::SizingDone => {
                if self.phase == ScanPhase::Sizing {
                    out.push(ScanMessage::Done { job_id });
                    self.finish_with(ScanPhase::Finished, Ghost(want.0));
                }
            },
        }
        out
    }

    /// Moves to `phase` and records the emitted messages.
    fn finish_with(&mut self, phase: ScanPhase, Ghost(next): Ghost<DirScanState>)
        requires
            next.inv(),
            next == (DirScanState { phase, sent: next.sent, ..old(self)@ }),
        ensures
            final(self)@ == next,
    {
        proof {
            use_type_invariant(&*self);
        }
        let mut path = String::new();
        let mut dirs: Vec<String> = Vec::new();
        std::mem::swap(&mut path, &mut self.path);
        std::mem::swap(&mut dirs, &mut self.dirs);
        *self = DirScan {
            job_id: self.job_id,
            top_level: self.top_level,
            path,
            phase,
            index: self.index,
            total: self.total,
            dirs,
            sent: Ghost(next.sent),
        };
    }

    /// Counts one child, keeps the path of a directory, and records the
    /// emitted messages.
    fn take_child(&mut self, dir_path: Option<String>, Ghost(next): Ghost<DirScanState>)
        requires
            next.inv(),
            next == (DirScanState {
                index: if old(self)@.index < usize::MAX {
                    (old(self)@.index + 1) as usize
                } else {
                    old(self)@.index
                },
                dirs: match dir_path {
                    Some(p) => old(self)@.dirs.push(p@),
                    None => old(self)@.dirs,
                },
                sent: next.sent,
                ..old(self)@
            }),
        ensures
            final(self)@ == next,
    {
        proof {
            use_type_invariant(&*self);
        }
        let mut path = String::new();
        let mut dirs: Vec<String> = Vec::new();
        std::mem::swap(&mut path, &mut self.path);
        std::mem::swap(&mut dirs, &mut self.dirs);
        let ghost old_dirs = dirs@;
        match dir_path {
            Some(p) => {
                dirs.push(p);
                assert(dirs@.map_values(|d: String| d@) =~= old_dirs.map_values(
                    |d: String| d@,
                ).push(
                    p@,
                ));
            },
            None => {},
        }
        *self = DirScan {
            job_id: self.job_id,
            top_level: self.top_level,
            path,
            phase: self.phase,
            index: if self.index < usize::MAX {
                self.index + 1
            } else {
                self.index
            },
            total: self.total,
            dirs,
            sent: Ghost(next.sent),
        };
    }

    /// The job the scan works for.
    pub fn job_id(&self) -> (id: u64)
        ensures
            id == self@.job_id,
    {
        self.job_id
    }

    /// Where the scan stands.
    pub fn phase(&self) -> (p: ScanPhase)
        ensures
            p == self@.phase,
    {
        self.phase
    }

    /// The child directories met so far, whose sizes are still to be taken.
    pub fn pending_dirs(&self) -> (dirs: &Vec<String>)
        ensures
            dirs@.map_values(|d: String| d@) == self@.dirs,
    {
        &self.dirs
    }
}

} // verus!
