//! The scan of the catalog of well-known locations.
//!
//! For each target in catalog order the scan announces the target, then
//! takes the measurement of what lies below it, and reports the target as a
//! top-level entry where it holds any bytes. After the last target it is
//! done. Like every scan it is a state machine fed by whoever reads the
//! filesystem, and it stops for good once its job is superseded.

use vstd::prelude::*;
use vstd::string::*;
use crate::app::{CleanableEntry, EntryKind, EntryView, ItemCategory};
use crate::scanner::{
    MessageView,
    ScanMessage,
    message_views,
    percent_of,
    progress_percent,
    stream_ended,
    stream_ok,
    lemma_stream_extend,
};

verus! {

/// What was measured below one target.
#[derive(Debug, Clone, Copy, PartialEq, Eq, Structural)]
pub struct Measurement {
    /// Whether the target exists.
    pub exists: bool,
    /// The bytes of the regular files below it.
    pub size: u64,
    /// Its last modification, in seconds since 1970-01-01 00:00:00 UTC.
    pub modified_at: Option<u64>,
}

/// What the reader of the filesystem reports to a catalog scan.
#[derive(Debug, Clone, Copy, PartialEq, Eq, Structural)]
pub enum PresetEvent {
    /// Ready for the next target.
    Next,
    /// The measurement of the target announced last.
    Measured(Measurement),
}

/// Where a catalog scan stands.
#[derive(Debug, Clone, Copy, PartialEq, Eq, Structural)]
pub enum PresetPhase {
    /// Between two targets.
    Announcing,
    /// A target was announced; its measurement is awaited.
    Measuring,
    /// The terminal message was emitted.
    Finished,
    /// The job was superseded; nothing more is emitted.
    Stopped,
}

/// The mathematical value of a [`PresetScan`].
pub struct PresetScanState {
    pub job_id: u64,
    /// The catalog: category and path of each target, in scan order.
    pub targets: Seq<(ItemCategory, Seq<char>)>,
    /// The number of targets dealt with.
    pub index: int,
    pub phase: PresetPhase,
    /// Every message emitted so far, in order.
    pub sent: Seq<MessageView>,
}

/// The entry reported for a target that holds `size` bytes: a directory,
/// named after its category.
pub open spec fn target_entry(
    category: ItemCategory,
    path: Seq<char>,
    size: u64,
    modified_at: Option<u64>,
) -> EntryView {
    EntryView {
        kind: EntryKind::Directory,
        category: Some(category),
        path,
        name: category.label(),
        size: Some(size),
        modified_at,
    }
}

impl PresetScanState {
    /// Whether the scan still takes events.
    pub open spec fn active(self) -> bool {
        self.phase == PresetPhase::Announcing || self.phase == PresetPhase::Measuring
    }

    /// Whether the event belongs to the phase the scan is in.
    pub open spec fn accepts(self, ev: PresetEvent) -> bool {
        match ev {
            PresetEvent::Next => self.phase == PresetPhase::Announcing,
            PresetEvent::Measured(_) => self.phase == PresetPhase::Measuring,
        }
    }

    /// The messages emitted for an accepted event. Announcing a target
    /// reports the share of targets dealt with, in percent, and its path;
    /// past the last target the scan is done. A measured target is reported
    /// where it exists and holds at least one byte.
    pub open spec fn output(self, ev: PresetEvent) -> Seq<MessageView> {
        match ev {
            PresetEvent::Next => if self.index < self.targets.len() {
                seq![
                    MessageView::Progress {
                        job_id: self.job_id,
                        progress: percent_of(self.index, self.targets.len() as int, 100) as u8,
                        path: self.targets[self.index].1,
                    },
                ]
            } else {
                seq![MessageView::Done { job_id: self.job_id }]
            },
            PresetEvent::Measured(m) => if m.exists && m.size > 0 {
                seq![
                    MessageView::RootItem {
                        job_id: self.job_id,
                        entry: target_entry(
                            self.targets[self.index].0,
                            self.targets[self.index].1,
                            m.size,
                            m.modified_at,
                        ),
                    },
                ]
            } else {
                Seq::<MessageView>::empty()
            },
        }
    }

    /// The state after an accepted event, the emitted messages aside.
    pub open spec fn advanced(self, ev: PresetEvent) -> PresetScanState {
        match ev {
            PresetEvent::Next => PresetScanState {
                phase: if self.index < self.targets.len() {
                    PresetPhase::Measuring
                } else {
                    PresetPhase::Finished
                },
                ..self
            },
            PresetEvent::Measured(_) => PresetScanState {
                phase: PresetPhase::Announcing,
                index: self.index + 1,
                ..self
            },
        }
    }

    /// One step of the scan: the state it leaves and the messages it emits.
    /// A scan that is finished or stopped ignores everything. A scan that
    /// learns that its job is no longer current stops. An event that does
    /// not belong to the phase is ignored.
    pub open spec fn step(self, ev: PresetEvent, current: bool) -> (
        PresetScanState,
        Seq<MessageView>,
    ) {
        if !self.active() {
            (self, Seq::<MessageView>::empty())
        } else if !current {
            (PresetScanState { phase: PresetPhase::Stopped, ..self }, Seq::<MessageView>::empty())
        } else if !self.accepts(ev) {
            (self, Seq::<MessageView>::empty())
        } else {
            let out = self.output(ev);
            (PresetScanState { sent: self.sent + out, ..self.advanced(ev) }, out)
        }
    }

    /// What holds of every scan at every moment: its stream is well formed,
    /// it has emitted its terminal message exactly when it is finished, and
    /// a target whose measurement is awaited is a target of the catalog.
    pub open spec fn inv(self) -> bool {
        &&& stream_ok(self.sent, self.job_id)
        &&& stream_ended(self.sent) <==> self.phase == PresetPhase::Finished
        &&& 0 <= self.index <= self.targets.len()
        &&& self.phase == PresetPhase::Measuring ==> self.index < self.targets.len()
    }

    /// The state of a scan that has just begun.
    pub open spec fn initial(job_id: u64, targets: Seq<(ItemCategory, Seq<char>)>, current: bool)
        -> PresetScanState {
        PresetScanState {
            job_id,
            targets,
            index: 0,
            phase: if current {
                PresetPhase::Announcing
            } else {
                PresetPhase::Stopped
            },
            sent: Seq::empty(),
        }
    }
}

/// The values of a catalog of targets.
pub open spec fn target_views(targets: Seq<(ItemCategory, String)>) -> Seq<
    (ItemCategory, Seq<char>),
> {
    targets.map_values(|t: (ItemCategory, String)| (t.0, t.1@))
}

/// No step of a catalog scan breaks its stream: whatever event arrives, in
/// whatever phase, the messages emitted so far stay a well-formed stream, in
/// which nothing follows the terminal message.
pub proof fn lemma_preset_scan_step_keeps_stream(s: PresetScanState, ev: PresetEvent, current: bool)
    requires
        s.inv(),
    ensures
        s.step(ev, current).0.inv(),
        s.step(ev, current).0.sent == s.sent + s.step(ev, current).1,
        s.step(ev, current).0.job_id == s.job_id,
        s.step(ev, current).0.targets == s.targets,
        !s.active() ==> s.step(ev, current).1.len() == 0,
{
    let (t, out) = s.step(ev, current);
    if s.active() && current && s.accepts(ev) {
        lemma_stream_extend(s.sent, out, s.job_id);
        if out.len() > 0 {
        }
    }
}

/// The state of a scan after a sequence of events, each with whether the
/// job was current when it arrived.
pub open spec fn preset_scan_after(s: PresetScanState, events: Seq<(PresetEvent, bool)>)
    -> PresetScanState
    decreases events.len(),
{
    if events.len() == 0 {
        s
    } else {
        preset_scan_after(s, events.drop_last()).step(events.last().0, events.last().1).0
    }
}

/// Every scan of the catalog emits a well-formed stream: whatever is
/// measured and whenever the job is superseded, all messages carry the
/// number of the job, and the terminal message, if one is emitted, is the
/// only one and the last.
pub proof fn lemma_preset_scan_stream(
    job_id: u64,
    targets: Seq<(ItemCategory, Seq<char>)>,
    current: bool,
    events: Seq<(PresetEvent, bool)>,
)
    ensures
        stream_ok(
            preset_scan_after(PresetScanState::initial(job_id, targets, current), events).sent,
            job_id,
        ),
        preset_scan_after(PresetScanState::initial(job_id, targets, current), events).inv(),
        preset_scan_after(PresetScanState::initial(job_id, targets, current), events).job_id
            == job_id,
    decreases events.len(),
{
    if events.len() > 0 {
        lemma_preset_scan_stream(job_id, targets, current, events.drop_last());
        lemma_preset_scan_step_keeps_stream(
            preset_scan_after(
                PresetScanState::initial(job_id, targets, current),
                events.drop_last(),
            ),
            events.last().0,
            events.last().1,
        );
    }
}

/// A running scan of the catalog.
pub struct PresetScan {
    job_id: u64,
    targets: Vec<(ItemCategory, String)>,
    index: usize,
    phase: PresetPhase,
    sent: Ghost<Seq<MessageView>>,
}

impl View for PresetScan {
    type V = PresetScanState;

    closed spec fn view(&self) -> PresetScanState {
        PresetScanState {
            job_id: self.job_id,
            targets: target_views(self.targets@),
            index: self.index as int,
            phase: self.phase,
            sent: self.sent@,
        }
    }
}

impl PresetScan {
    #[verifier::type_invariant]
    spec fn stream_well_formed(self) -> bool {
        self@.inv()
    }

    /// Begins the scan of `targets` for job `job_id`. `current` says whether
    /// the job is still the accepted one.
    pub fn start(job_id: u64, targets: Vec<(ItemCategory, String)>, current: bool) -> (scan: Self)
        ensures
            scan@ == PresetScanState::initial(job_id, target_views(targets@), current),
            scan@.inv(),
    {
        PresetScan {
            job_id,
            targets,
            index: 0,
            phase: if current {
                PresetPhase::Announcing
            } else {
                PresetPhase::Stopped
            },
            sent: Ghost(Seq::empty()),
        }
    }

    /// Takes one event and returns the messages to send, in order.
    pub fn step(&mut self, event: PresetEvent, current: bool) -> (out: Vec<ScanMessage>)
        ensures
            final(self)@ == old(self)@.step(event, current).0,
            message_views(out@) == old(self)@.step(event, current).1,
            final(self)@.sent == old(self)@.sent + message_views(out@),
            final(self)@.inv(),
    {
        proof {
            use_type_invariant(&*self);
        }
        let ghost before = self@;
        let ghost want = before.step(event, current);
        let mut out: Vec<ScanMessage> = Vec::new();
        let active = self.phase == PresetPhase::Announcing || self.phase == PresetPhase::Measuring;
        if !active {
            return out;
        }
        if !current {
            self.phase = PresetPhase::Stopped;
            return out;
        }
        let job_id = self.job_id;
        match event {
            PresetEvent::Next => {
                if self.phase == PresetPhase::Announcing {
                    if self.index < self.targets.len() {
                        let progress = progress_percent(self.index, self.targets.len(), 100);
                        let path = self.targets[self.index].1.clone();
                        out.push(ScanMessage::Progress { job_id, progress, path });
                        self.move_on(PresetPhase::Measuring, self.index, Ghost(want.0));
                    } else {
                        out.push(ScanMessage::Done { job_id });
                        self.move_on(PresetPhase::Finished, self.index, Ghost(want.0));
                    }
                }
            },
            PresetEvent::Measured(m) => {
                if self.phase == PresetPhase::Measuring {
                    if m.exists && m.size > 0 {
                        let category = self.targets[self.index].0;
                        let entry = CleanableEntry {
                            kind: EntryKind::Directory,
                            category: Some(category),
                            path: self.targets[self.index].1.clone(),
                            name: String::from_str(category.as_str()),
                            size: Some(m.size),
                            modified_at: m.modified_at,
                        };
                        out.push(ScanMessage::RootItem { job_id, entry });
                    }
                    let count = self.targets.len();
                    self.move_on(PresetPhase::Announcing, self.index + 1, Ghost(want.0));
                }
            },
        }
        out
    }

    /// Moves to `phase` and `index`, and records the emitted messages.
    fn move_on(&mut self, phase: PresetPhase, index: usize, Ghost(next): Ghost<PresetScanState>)
        requires
            old(self)@.active(),
            next.inv(),
            next == (PresetScanState { phase, index: index as int, sent: next.sent, ..old(self)@ }),
        ensures
            final(self)@ == next,
    {
        proof {
            use_type_invariant(&*self);
        }
        self.phase = PresetPhase::Stopped;
        self.index = 0;
        let mut targets: Vec<(ItemCategory, String)> = Vec::new();
        std::mem::swap(&mut targets, &mut self.targets);
        *self = PresetScan { job_id: self.job_id, targets, index, phase, sent: Ghost(next.sent) };
    }

    /// The job the scan works for.
    pub fn job_id(&self) -> (id: u64)
        ensures
            id == self@.job_id,
    {
        self.job_id
    }

    /// Where the scan stands.
    pub fn phase(&self) -> (p: PresetPhase)
        ensures
            p == self@.phase,
    {
        self.phase
    }

    /// The path of the target whose measurement is awaited, if one is.
    pub fn awaited(&self) -> (path: Option<&String>)
        ensures
            self@.phase == PresetPhase::Measuring ==> path is Some && path.unwrap()@
                == self@.targets[self@.index].1,
            self@.phase != PresetPhase::Measuring ==> path is None,
    {
        proof {
            use_type_invariant(self);
        }
        if self.phase == PresetPhase::Measuring {
            Some(&self.targets[self.index].1)
        } else {
            None
        }
    }
}

} // verus!
