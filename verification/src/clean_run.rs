//! A deletion in progress.
//!
//! A deletion changes the filesystem, which this library never touches
//! itself. It decides instead: a run tells what is to be done next, is told
//! how that went, and so works through its items one after the other. A
//! failure of one item never stops the run; it is noted and the next item
//! taken.
//!
//! For each item the run first asks whether the path exists. An item that is
//! gone is passed over. A directory is listed, and each immediate child is
//! removed or moved to the trash: the directory itself is never named in a
//! removal. Anything else is removed or moved to the trash as it is.

use vstd::prelude::*;
use vstd::string::*;
use crate::app::{CleanableEntry, EntryView};
use crate::cleaner::{
    CleanResult,
    Cleaner,
    OutcomeView,
    clean_summary,
    entry_views,
    item_error_text,
    outcome_view,
    outcome_views,
};

verus! {

/// The mathematical value of an [`FsRequest`].
pub enum FsRequestView {
    Probe { path: Seq<char> },
    List { path: Seq<char> },
    Remove { path: Seq<char>, recursive: bool },
    Trash { path: Seq<char> },
}

/// What a run asks to be done on the filesystem.
#[derive(Debug)]
pub enum FsRequest {
    /// Find out whether the path exists and whether it is a directory.
    Probe { path: String },
    /// Read the immediate children of the directory.
    List { path: String },
    /// Remove the path for good: a directory with all that lies below it
    /// where `recursive` is set, a single file where it is not.
    Remove { path: String, recursive: bool },
    /// Move the path to the trash of the operating system.
    Trash { path: String },
}

impl View for FsRequest {
    type V = FsRequestView;

    open spec fn view(&self) -> FsRequestView {
        match self {
            FsRequest::Probe { path } => FsRequestView::Probe { path: path@ },
            FsRequest::List { path } => FsRequestView::List { path: path@ },
            FsRequest::Remove { path, recursive } => FsRequestView::Remove {
                path: path@,
                recursive: *recursive,
            },
            FsRequest::Trash { path } => FsRequestView::Trash { path: path@ },
        }
    }
}

/// The mathematical value of a [`ListedChild`].
pub struct ListedChildView {
    pub path: Seq<char>,
    pub is_dir: bool,
    pub error: Option<Seq<char>>,
}

/// One immediate child of a listed directory.
#[derive(Debug)]
pub struct ListedChild {
    pub path: String,
    pub is_dir: bool,
    /// Why the child could not be read, where it could not.
    pub error: Option<String>,
}

impl View for ListedChild {
    type V = ListedChildView;

    open spec fn view(&self) -> ListedChildView {
        ListedChildView {
            path: self.path@,
            is_dir: self.is_dir,
            error: match self.error {
                Some(e) => Some(e@),
                None => None,
            },
        }
    }
}

/// The values of a listing.
pub open spec fn child_views(children: Seq<ListedChild>) -> Seq<ListedChildView> {
    children.map_values(|c: ListedChild| c@)
}

/// The mathematical value of an [`FsReply`].
pub enum FsReplyView {
    Probed { exists: bool, is_dir: bool },
    Listed { children: Seq<ListedChildView> },
    ListFailed { error: Seq<char> },
    Done,
    Failed { error: Seq<char> },
}

/// How a request went.
#[derive(Debug)]
pub enum FsReply {
    /// The answer to a probe.
    Probed { exists: bool, is_dir: bool },
    /// The children of the listed directory.
    Listed { children: Vec<ListedChild> },
    /// The directory could not be listed.
    ListFailed { error: String },
    /// The removal or the move to the trash was carried out.
    Done,
    /// The removal or the move to the trash failed.
    Failed { error: String },
}

impl View for FsReply {
    type V = FsReplyView;

    open spec fn view(&self) -> FsReplyView {
        match self {
            FsReply::Probed { exists, is_dir } => FsReplyView::Probed {
                exists: *exists,
                is_dir: *is_dir,
            },
            FsReply::Listed { children } => FsReplyView::Listed {
                children: child_views(children@),
            },
            FsReply::ListFailed { error } => FsReplyView::ListFailed { error: error@ },
            FsReply::Done => FsReplyView::Done,
            FsReply::Failed { error } => FsReplyView::Failed { error: error@ },
        }
    }
}

/// What a run is doing with its current item.
#[derive(Debug, Clone, Copy, PartialEq, Eq, Structural)]
pub enum CleanStage {
    /// Asking whether the item exists.
    Probing,
    /// Listing the item, a directory.
    Listing,
    /// Working through the children of the item.
    Children,
    /// Removing the item itself, which is no directory.
    Single,
    /// Every item has its outcome.
    Complete,
}

/// The lines `lines`, with `"; "` between one and the next.
pub open spec fn joined(lines: Seq<Seq<char>>) -> Seq<char>
    decreases lines.len(),
{
    if lines.len() == 0 {
        Seq::empty()
    } else if lines.len() == 1 {
        lines[0]
    } else {
        joined(lines.drop_last()) + "; "@ + lines.last()
    }
}

/// The mathematical value of a [`CleanRun`].
pub struct CleanRunState {
    pub items: Seq<EntryView>,
    /// Whether the items go to the trash instead of being removed for good.
    pub use_trash: bool,
    /// The position of the current item.
    pub index: int,
    pub stage: CleanStage,
    /// The children of the current item.
    pub children: Seq<ListedChildView>,
    /// The position of the current child.
    pub pos: int,
    /// The failures among the children done so far, one line each.
    pub child_errors: Seq<Seq<char>>,
    /// The outcomes of the items done so far.
    pub outcomes: Seq<OutcomeView>,
}

impl CleanRunState {
    /// The state of a run that has just begun.
    pub open spec fn initial(items: Seq<EntryView>, use_trash: bool) -> CleanRunState {
        CleanRunState {
            items,
            use_trash,
            index: 0,
            stage: if items.len() == 0 {
                CleanStage::Complete
            } else {
                CleanStage::Probing
            },
            children: Seq::empty(),
            pos: 0,
            child_errors: Seq::empty(),
            outcomes: Seq::empty(),
        }
    }

    /// Whether there is a current item.
    pub open spec fn has_item(self) -> bool {
        0 <= self.index < self.items.len()
    }

    /// Whether there is a current child.
    pub open spec fn has_child(self) -> bool {
        0 <= self.pos < self.children.len()
    }

    /// The request for the current item itself, which is no directory.
    pub open spec fn removal_of(self, path: Seq<char>, recursive: bool) -> FsRequestView {
        if self.use_trash {
            FsRequestView::Trash { path }
        } else {
            FsRequestView::Remove { path, recursive }
        }
    }

    /// What is to be done next; `None` where the run is complete.
    pub open spec fn pending(self) -> Option<FsRequestView> {
        if !self.has_item() {
            None
        } else {
            let path = self.items[self.index].path;
            match self.stage {
                CleanStage::Probing => Some(FsRequestView::Probe { path }),
                CleanStage::Listing => Some(FsRequestView::List { path }),
                CleanStage::Children => if self.has_child() {
                    Some(
                        self.removal_of(
                            self.children[self.pos].path,
                            self.children[self.pos].is_dir,
                        ),
                    )
                } else {
                    None
                },
                CleanStage::Single => Some(self.removal_of(path, false)),
                CleanStage::Complete => None,
            }
        }
    }

    /// The state after the current item got its outcome: the next item is
    /// taken, or the run is complete.
    pub open spec fn conclude(self, outcome: OutcomeView) -> CleanRunState {
        if !self.has_item() {
            self
        } else {
            CleanRunState {
                index: self.index + 1,
                stage: if self.index + 1 < self.items.len() {
                    CleanStage::Probing
                } else {
                    CleanStage::Complete
                },
                children: Seq::empty(),
                pos: 0,
                child_errors: Seq::empty(),
                outcomes: self.outcomes.push(outcome),
                ..self
            }
        }
    }

    /// The outcome of a directory whose children are all done. A permanent
    /// removal that came this far acted on it. A move to the trash acted on
    /// it where no child failed, and else failed with all the lines of its
    /// children.
    pub open spec fn emptied(self) -> OutcomeView {
        if self.use_trash && self.child_errors.len() > 0 {
            OutcomeView::Failed(joined(self.child_errors))
        } else {
            OutcomeView::Acted
        }
    }

    /// Moves on to the next child that asks for a request. A child that
    /// could not be read is passed over by a move to the trash, and fails
    /// the item in a permanent removal. Past the last child the item gets
    /// its outcome.
    pub open spec fn settle(self) -> CleanRunState
        decreases self.children.len() - self.pos,
    {
        if self.stage != CleanStage::Children || self.pos < 0 || !self.has_item() {
            self
        } else if self.pos >= self.children.len() {
            self.conclude(self.emptied())
        } else if self.children[self.pos].error is Some {
            if self.use_trash {
                (CleanRunState { pos: self.pos + 1, ..self }).settle()
            } else {
                self.conclude(OutcomeView::Failed(self.children[self.pos].error.unwrap()))
            }
        } else {
            self
        }
    }

    /// The state after the reply to the pending request. A reply that does
    /// not answer the pending request changes nothing.
    pub open spec fn after(self, reply: FsReplyView) -> CleanRunState {
        if !self.has_item() {
            self
        } else {
            match (self.stage, reply) {
                (CleanStage::Probing, FsReplyView::Probed { exists, is_dir }) => if !exists {
                    self.conclude(OutcomeView::Skipped)
                } else if is_dir {
                    CleanRunState { stage: CleanStage::Listing, ..self }
                } else {
                    CleanRunState { stage: CleanStage::Single, ..self }
                },
                (CleanStage::Listing, FsReplyView::ListFailed { error }) => self.conclude(
                    OutcomeView::Failed(error),
                ),
                (CleanStage::Listing, FsReplyView::Listed { children }) => (CleanRunState {
                    stage: CleanStage::Children,
                    children,
                    pos: 0,
                    child_errors: Seq::empty(),
                    ..self
                }).settle(),
                (CleanStage::Children, FsReplyView::Done) => if self.has_child() {
                    (CleanRunState { pos: self.pos + 1, ..self }).settle()
                } else {
                    self
                },
                (CleanStage::Children, FsReplyView::Failed { error }) => if !self.has_child() {
                    self
                } else if self.use_trash {
                    (CleanRunState {
                        pos: self.pos + 1,
                        child_errors: self.child_errors.push(
                            item_error_text(self.children[self.pos].path, error),
                        ),
                        ..self
                    }).settle()
                } else {
                    self.conclude(OutcomeView::Failed(error))
                },
                (CleanStage::Single, FsReplyView::Done) => self.conclude(OutcomeView::Acted),
                (CleanStage::Single, FsReplyView::Failed { error }) => self.conclude(
                    OutcomeView::Failed(error),
                ),
                _ => self,
            }
        }
    }

    /// What holds of every run at every moment: each item before the
    /// current one has its outcome; the run is complete exactly when no item
    /// is left; and a child that is being worked on is a child that could be
    /// read.
    pub open spec fn inv(self) -> bool {
        &&& 0 <= self.index <= self.items.len()
        &&& self.outcomes.len() == self.index
        &&& self.stage == CleanStage::Complete <==> self.index == self.items.len()
        &&& self.stage == CleanStage::Children ==> self.has_child()
            && self.children[self.pos].error is None
    }

    /// The account of the run so far.
    pub open spec fn summary(self) -> crate::cleaner::CleanResultView {
        clean_summary(self.items, self.outcomes)
    }
}

/// Moving on to the next child keeps what holds of every run, and after it
/// the run is working on a readable child or has left the directory.
pub proof fn lemma_settle_keeps_inv(s: CleanRunState)
    requires
        0 <= s.index < s.items.len(),
        s.outcomes.len() == s.index,
        s.stage == CleanStage::Children,
        0 <= s.pos <= s.children.len(),
    ensures
        s.settle().inv(),
        s.settle().items == s.items,
        s.settle().use_trash == s.use_trash,
    decreases s.children.len() - s.pos,
{
    if s.pos < s.children.len() && s.children[s.pos].error is Some && s.use_trash {
        lemma_settle_keeps_inv(CleanRunState { pos: s.pos + 1, ..s });
    }
}

/// No reply breaks a run: whatever is reported, in whatever stage, each item
/// before the current one has its outcome, in order, and the run never
/// names a child that could not be read. The items and the kind of deletion
/// never change.
pub proof fn lemma_clean_run_step_keeps_inv(s: CleanRunState, reply: FsReplyView)
    requires
        s.inv(),
    ensures
        s.after(reply).inv(),
        s.after(reply).items == s.items,
        s.after(reply).use_trash == s.use_trash,
        s.outcomes.len() <= s.after(reply).outcomes.len() <= s.outcomes.len() + 1,
        s.after(reply).outcomes.subrange(0, s.outcomes.len() as int) == s.outcomes,
{
    let t = s.after(reply);
    if s.has_item() {
        match (s.stage, reply) {
            (CleanStage::Listing, FsReplyView::Listed { children }) => {
                let u = CleanRunState {
                    stage: CleanStage::Children,
                    children,
                    pos: 0,
                    child_errors: Seq::empty(),
                    ..s
                };
                lemma_settle_keeps_inv(u);
                lemma_settle_outcomes(u);
            },
            (CleanStage::Children, FsReplyView::Done) => {
                let u = CleanRunState { pos: s.pos + 1, ..s };
                lemma_settle_keeps_inv(u);
                lemma_settle_outcomes(u);
            },
            (CleanStage::Children, FsReplyView::Failed { error }) => {
                if s.use_trash {
                    let u = CleanRunState {
                        pos: s.pos + 1,
                        child_errors: s.child_errors.push(
                            item_error_text(s.children[s.pos].path, error),
                        ),
                        ..s
                    };
                    lemma_settle_keeps_inv(u);
                    lemma_settle_outcomes(u);
                }
            },
            _ => {},
        }
    }
}

/// Moving on to the next child gives at most the current item its outcome.
proof fn lemma_settle_outcomes(s: CleanRunState)
    requires
        s.stage == CleanStage::Children,
        0 <= s.pos <= s.children.len(),
    ensures
        s.outcomes.len() <= s.settle().outcomes.len() <= s.outcomes.len() + 1,
        s.settle().outcomes.subrange(0, s.outcomes.len() as int) == s.outcomes,
    decreases s.children.len() - s.pos,
{
    if s.has_item() && s.pos < s.children.len() && s.children[s.pos].error is Some && s.use_trash {
        lemma_settle_outcomes(CleanRunState { pos: s.pos + 1, ..s });
    }
}

/// A run in which only the kind of request that its kind of deletion calls
/// for is ever pending: a run to the trash never removes for good, and a
/// permanent removal never moves to the trash. And a directory item is never
/// itself removed: while its children are worked on, the pending request
/// names the current child.
pub proof fn lemma_pending_request(s: CleanRunState)
    ensures
        s.use_trash ==> !(s.pending() matches Some(FsRequestView::Remove { .. })),
        !s.use_trash ==> !(s.pending() matches Some(FsRequestView::Trash { .. })),
        s.stage == CleanStage::Children ==> match s.pending() {
            Some(FsRequestView::Remove { path, .. }) => path == s.children[s.pos].path,
            Some(FsRequestView::Trash { path }) => path == s.children[s.pos].path,
            Some(_) => false,
            None => true,
        },
        s.stage == CleanStage::Complete ==> s.pending() is None,
{
}

/// A deletion in progress.
pub struct CleanRun {
    items: Vec<CleanableEntry>,
    use_trash: bool,
    index: usize,
    stage: CleanStage,
    children: Vec<ListedChild>,
    pos: usize,
    child_errors: Vec<String>,
    outcomes: Vec<Result<bool, String>>,
}

impl View for CleanRun {
    type V = CleanRunState;

    closed spec fn view(&self) -> CleanRunState {
        CleanRunState {
            items: entry_views(self.items@),
            use_trash: self.use_trash,
            index: self.index as int,
            stage: self.stage,
            children: child_views(self.children@),
            pos: self.pos as int,
            child_errors: self.child_errors@.map_values(|e: String| e@),
            outcomes: outcome_views(self.outcomes@),
        }
    }
}

impl CleanRun {
    /// A run over `items`: to the trash where `use_trash` is set, and for
    /// good where it is not.
    pub fn new(items: Vec<CleanableEntry>, use_trash: bool) -> (run: Self)
        ensures
            run@ == CleanRunState::initial(entry_views(items@), use_trash),
            run@.inv(),
    {
        let stage = if items.len() == 0 {
            CleanStage::Complete
        } else {
            CleanStage::Probing
        };
        let run = CleanRun {
            items,
            use_trash,
            index: 0,
            stage,
            children: Vec::new(),
            pos: 0,
            child_errors: Vec::new(),
            outcomes: Vec::new(),
        };
        assert(run@.children =~= Seq::<ListedChildView>::empty());
        assert(run@.child_errors =~= Seq::<Seq<char>>::empty());
        assert(run@.outcomes =~= Seq::<OutcomeView>::empty());
        run
    }

    /// What is to be done next; `None` where the run is complete.
    pub fn request(&self) -> (r: Option<FsRequest>)
        ensures
            match r {
                Some(request) => self@.pending() == Some(request@),
                None => self@.pending() is None,
            },
    {
        if self.index >= self.items.len() {
            return None;
        }
        let path = self.items[self.index].path.clone();
        match self.stage {
            CleanStage::Probing => Some(FsRequest::Probe { path }),
            CleanStage::Listing => Some(FsRequest::List { path }),
            CleanStage::Children => {
                if self.pos < self.children.len() {
                    let child = &self.children[self.pos];
                    if self.use_trash {
                        Some(FsRequest::Trash { path: child.path.clone() })
                    } else {
                        Some(
                            FsRequest::Remove { path: child.path.clone(), recursive: child.is_dir },
                        )
                    }
                } else {
                    None
                }
            },
            CleanStage::Single => {
                if self.use_trash {
                    Some(FsRequest::Trash { path })
                } else {
                    Some(FsRequest::Remove { path, recursive: false })
                }
            },
            CleanStage::Complete => None,
        }
    }

    /// Takes the reply to the pending request.
    pub fn reply(&mut self, reply: FsReply)
        ensures
            final(self)@ == old(self)@.after(reply@),
            old(self)@.inv() ==> final(self)@.inv(),
    {
        proof {
            if self@.inv() {
                lemma_clean_run_step_keeps_inv(self@, reply@);
            }
        }
        if self.index >= self.items.len() {
            return ;
        }
        match reply {
            FsReply::Probed { exists, is_dir } => {
                if self.stage == CleanStage::Probing {
                    if !exists {
                        self.conclude(Ok(false));
                    } else if is_dir {
                        self.stage = CleanStage::Listing;
                    } else {
                        self.stage = CleanStage::Single;
                    }
                }
            },
            FsReply::ListFailed { error } => {
                if self.stage == CleanStage::Listing {
                    self.conclude(Err(error));
                }
            },
            FsReply::Listed { children } => {
                if self.stage == CleanStage::Listing {
                    self.stage = CleanStage::Children;
                    self.children = children;
                    self.pos = 0;
                    self.child_errors = Vec::new();
                    assert(self@.child_errors =~= Seq::<Seq<char>>::empty());
                    self.settle();
                }
            },
            FsReply::Done => {
                if self.stage == CleanStage::Children {
                    if self.pos < self.children.len() {
                        self.pos = self.pos + 1;
                        self.settle();
                    }
                } else if self.stage == CleanStage::Single {
                    self.conclude(Ok(true));
                }
            },
            FsReply::Failed { error } => {
                if self.stage == CleanStage::Children {
                    if self.pos < self.children.len() {
                        if self.use_trash {
                            let line = Cleaner::format_item_error(
                                self.children[self.pos].path.as_str(),
                                error.as_str(),
                            );
                            let ghost before = self@.child_errors;
                            self.child_errors.push(line);
                            assert(self@.child_errors =~= before.push(line@));
                            self.pos = self.pos + 1;
                            self.settle();
                        } else {
                            self.conclude(Err(error));
                        }
                    }
                } else if self.stage == CleanStage::Single {
                    self.conclude(Err(error));
                }
            },
        }
    }

    /// Gives the current item its outcome and takes the next item.
    fn conclude(&mut self, outcome: Result<bool, String>)
        ensures
            final(self)@ == old(self)@.conclude(outcome_view(outcome)),
    {
        if self.index < self.items.len() {
            let ghost before = self@.outcomes;
            self.outcomes.push(outcome);
            assert(self@.outcomes =~= before.push(outcome_view(outcome)));
            self.index = self.index + 1;
            self.stage = if self.index < self.items.len() {
                CleanStage::Probing
            } else {
                CleanStage::Complete
            };
            self.children = Vec::new();
            self.pos = 0;
            self.child_errors = Vec::new();
            assert(self@.children =~= Seq::<ListedChildView>::empty());
            assert(self@.child_errors =~= Seq::<Seq<char>>::empty());
        }
    }

    /// Moves on to the next child that asks for a request.
    fn settle(&mut self)
        ensures
            final(self)@ == old(self)@.settle(),
        decreases old(self)@.children.len() - old(self)@.pos,
    {
        if self.stage != CleanStage::Children || self.index >= self.items.len() {
            return ;
        }
        if self.pos >= self.children.len() {
            let outcome = if self.use_trash && self.child_errors.len() > 0 {
                Err(join_lines(&self.child_errors))
            } else {
                Ok(true)
            };
            self.conclude(outcome);
            return ;
        }
        let unreadable = match &self.children[self.pos].error {
            Some(e) => Some(e.clone()),
            None => None,
        };
        match unreadable {
            Some(error) => {
                if self.use_trash {
                    self.pos = self.pos + 1;
                    self.settle();
                } else {
                    self.conclude(Err(error));
                }
            },
            None => {},
        }
    }

    /// Whether every item has its outcome.
    pub fn is_complete(&self) -> (r: bool)
        ensures
            r == (self@.stage == CleanStage::Complete),
    {
        self.stage == CleanStage::Complete
    }

    /// The account of the run: of the whole deletion once the run is
    /// complete, and of the items done so far before that.
    pub fn result(&self) -> (r: CleanResult)
        ensures
            r@ == self@.summary(),
    {
        Cleaner::process_items(&self.items, &self.outcomes)
    }
}

/// Joins the lines with `"; "` between one and the next.
fn join_lines(lines: &Vec<String>) -> (r: String)
    ensures
        r@ == joined(lines@.map_values(|l: String| l@)),
{
    let ghost all = lines@.map_values(|l: String| l@);
    let mut r = String::new();
    let mut i: usize = 0;
    while i < lines.len()
        invariant
            i <= lines.len(),
            all == lines@.map_values(|l: String| l@),
            r@ == joined(all.subrange(0, i as int)),
        decreases lines.len() - i,
    {
        let ghost done = all.subrange(0, i as int);
        let ghost more = all.subrange(0, i + 1);
        assert(more.drop_last() =~= done);
        if i > 0 {
            r.append("; ");
        }
        r.append(lines[i].as_str());
        i += 1;
    }
    assert(all.subrange(0, i as int) =~= all);
    r
}

} // verus!
