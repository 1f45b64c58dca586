//! What a recursive walk of a directory tree yields, and the sums taken over
//! it: the bytes of its regular files, and the counts a dry run reports.
//!
//! A walk never follows symbolic links; an entry that could not be read is
//! passed over, so that one bad entry never fails a whole scan.

use vstd::prelude::*;
use vstd::string::*;
use crate::sums::{total, sat_u64, sat_usize, lemma_total_push};

verus! {

/// What kind of filesystem object a walk or a listing met.
#[derive(Debug, Clone, Copy, PartialEq, Eq, Structural)]
pub enum NodeKind {
    Directory,
    /// A regular file.
    File,
    /// A symbolic link or a special file.
    Other,
    /// The object could not be examined.
    Unreadable,
}

/// The mathematical value of a [`WalkEntry`].
pub struct WalkEntryView {
    pub path: Seq<char>,
    pub kind: NodeKind,
    pub size: Option<u64>,
}

/// One object met by a walk.
#[derive(Debug)]
pub struct WalkEntry {
    pub path: String,
    pub kind: NodeKind,
    /// The length in bytes, where the metadata could be read.
    pub size: Option<u64>,
}

impl View for WalkEntry {
    type V = WalkEntryView;

    open spec fn view(&self) -> WalkEntryView {
        WalkEntryView { path: self.path@, kind: self.kind, size: self.size }
    }
}

/// The bytes an entry is charged with: the length of a regular file whose
/// metadata was read, and nothing for anything else.
pub open spec fn file_bytes(e: WalkEntryView) -> int {
    if e.kind == NodeKind::File && e.size is Some {
        e.size.unwrap() as int
    } else {
        0
    }
}

/// The bytes of all regular files of a walk.
pub open spec fn walk_bytes(entries: Seq<WalkEntryView>) -> int {
    total(Seq::new(entries.len(), |i: int| file_bytes(entries[i])))
}

/// Whether a dry run counts the entry as a file below `root`.
pub open spec fn counts_as_file(e: WalkEntryView, root: Seq<char>) -> bool {
    e.kind == NodeKind::File && e.path != root
}

/// Whether a dry run counts the entry as a directory below `root`. The root
/// itself is not counted: cleaning a directory keeps the directory.
pub open spec fn counts_as_dir(e: WalkEntryView, root: Seq<char>) -> bool {
    e.kind == NodeKind::Directory && e.path != root
}

/// The number of regular files of a walk, the root left out.
pub open spec fn walk_files(entries: Seq<WalkEntryView>, root: Seq<char>) -> int {
    total(
        Seq::new(
            entries.len(),
            |i: int|
                if counts_as_file(entries[i], root) {
                    1int
                } else {
                    0int
                },
        ),
    )
}

/// The number of directories of a walk, the root left out.
pub open spec fn walk_dirs(entries: Seq<WalkEntryView>, root: Seq<char>) -> int {
    total(
        Seq::new(
            entries.len(),
            |i: int|
                if counts_as_dir(entries[i], root) {
                    1int
                } else {
                    0int
                },
        ),
    )
}

/// The bytes of the regular files of a walk, the root left out.
pub open spec fn walk_file_bytes(entries: Seq<WalkEntryView>, root: Seq<char>) -> int {
    total(
        Seq::new(
            entries.len(),
            |i: int|
                if counts_as_file(entries[i], root) {
                    file_bytes(entries[i])
                } else {
                    0int
                },
        ),
    )
}

/// One more entry adds its bytes to the bytes of a walk.
pub proof fn lemma_walk_bytes_push(entries: Seq<WalkEntryView>, e: WalkEntryView)
    ensures
        walk_bytes(entries.push(e)) == walk_bytes(entries) + file_bytes(e),
        walk_bytes(entries) >= 0,
    decreases entries.len(),
{
    let f = |i: int| file_bytes(entries[i]);
    let g = |i: int| file_bytes(entries.push(e)[i]);
    assert(Seq::new(entries.len() + 1, g) =~= Seq::new(entries.len(), f).push(file_bytes(e)));
    lemma_total_push(Seq::new(entries.len(), f), file_bytes(e));
    if entries.len() > 0 {
        lemma_walk_bytes_push(entries.drop_last(), entries.last());
        assert(entries.drop_last().push(entries.last()) =~= entries);
    }
}

/// One more entry adds to the counts of a walk what it counts as.
pub proof fn lemma_walk_counts_push(entries: Seq<WalkEntryView>, e: WalkEntryView, root: Seq<char>)
    ensures
        walk_files(entries.push(e), root) == walk_files(entries, root) + if counts_as_file(
            e,
            root,
        ) {
            1int
        } else {
            0int
        },
        walk_dirs(entries.push(e), root) == walk_dirs(entries, root) + if counts_as_dir(e, root) {
            1int
        } else {
            0int
        },
        walk_file_bytes(entries.push(e), root) == walk_file_bytes(entries, root)
            + if counts_as_file(e, root) {
            file_bytes(e)
        } else {
            0int
        },
        walk_files(entries, root) >= 0,
        walk_dirs(entries, root) >= 0,
        walk_file_bytes(entries, root) >= 0,
    decreases entries.len(),
{
    let n = entries.len();
    let more = entries.push(e);
    let cf = |x: WalkEntryView| if counts_as_file(x, root) { 1int } else { 0int };
    let cd = |x: WalkEntryView| if counts_as_dir(x, root) { 1int } else { 0int };
    let cb = |x: WalkEntryView| if counts_as_file(x, root) { file_bytes(x) } else { 0int };
    let f1 = Seq::new(n, |i: int| if counts_as_file(entries[i], root) { 1int } else { 0int });
    let f2 = Seq::new(n + 1, |i: int| if counts_as_file(more[i], root) { 1int } else { 0int });
    let d1 = Seq::new(n, |i: int| if counts_as_dir(entries[i], root) { 1int } else { 0int });
    let d2 = Seq::new(n + 1, |i: int| if counts_as_dir(more[i], root) { 1int } else { 0int });
    let b1 = Seq::new(
        n,
        |i: int| if counts_as_file(entries[i], root) { file_bytes(entries[i]) } else { 0int },
    );
    let b2 = Seq::new(
        n + 1,
        |i: int| if counts_as_file(more[i], root) { file_bytes(more[i]) } else { 0int },
    );
    assert(f2 =~= f1.push(cf(e)));
    assert(d2 =~= d1.push(cd(e)));
    assert(b2 =~= b1.push(cb(e)));
    lemma_total_push(f1, cf(e));
    lemma_total_push(d1, cd(e));
    lemma_total_push(b1, cb(e));
    if n > 0 {
        lemma_walk_counts_push(entries.drop_last(), entries.last(), root);
        assert(entries.drop_last().push(entries.last()) =~= entries);
    }
}

/// Sums the bytes of the regular files of a walk, entry by entry, for one
/// scan job. Once the job is seen to be superseded the sizer stops: it
/// takes no further entry, and holds the sum of what it had seen.
pub struct DirSizer {
    job_id: u64,
    bytes: u64,
    stopped: bool,
    seen: Ghost<Seq<WalkEntryView>>,
}

impl DirSizer {
    #[verifier::type_invariant]
    spec fn held_sum_is_right(self) -> bool {
        self.bytes == sat_u64(walk_bytes(self.seen@))
    }

    /// The job the sizer works for.
    pub closed spec fn job(self) -> u64 {
        self.job_id
    }

    /// The entries taken so far, in order.
    pub closed spec fn seen(self) -> Seq<WalkEntryView> {
        self.seen@
    }

    /// Whether the sizer has stopped.
    pub closed spec fn is_stopped(self) -> bool {
        self.stopped
    }

    /// A sizer that has seen nothing.
    pub fn new(job_id: u64) -> (s: Self)
        ensures
            s.job() == job_id,
            s.seen() == Seq::<WalkEntryView>::empty(),
            !s.is_stopped(),
    {
        DirSizer { job_id, bytes: 0, stopped: false, seen: Ghost(Seq::empty()) }
    }

    /// Takes the next entry of the walk. `current` says whether the job was
    /// still the accepted one when the entry was read. Returns whether the
    /// walk should go on.
    pub fn observe(&mut self, entry: &WalkEntry, current: bool) -> (go_on: bool)
        ensures
            final(self).job() == old(self).job(),
            go_on == (current && !old(self).is_stopped()),
            final(self).is_stopped() == !go_on,
            final(self).seen() == if go_on {
                old(self).seen().push(entry@)
            } else {
                old(self).seen()
            },
    {
        proof {
            use_type_invariant(&*self);
        }
        if self.stopped || !current {
            self.stopped = true;
            return false;
        }
        let add: u64 = match (entry.kind, entry.size) {
            (NodeKind::File, Some(n)) => n,
            _ => 0,
        };
        proof {
            lemma_walk_bytes_push(self.seen@, entry@);
        }
        *self = DirSizer {
            job_id: self.job_id,
            bytes: self.bytes.saturating_add(add),
            stopped: false,
            seen: Ghost(self.seen@.push(entry@)),
        };
        true
    }

    /// The bytes of the regular files seen so far; `u64::MAX` where the sum
    /// does not fit.
    pub fn total(&self) -> (bytes: u64)
        ensures
            bytes == sat_u64(walk_bytes(self.seen())),
    {
        proof {
            use_type_invariant(self);
        }
        self.bytes
    }

    /// Whether the sizer has stopped because its job was superseded.
    pub fn stopped(&self) -> (r: bool)
        ensures
            r == self.is_stopped(),
    {
        self.stopped
    }
}

/// Counts what a walk meets below a root, entry by entry: regular files,
/// directories, and the bytes of the files. The root itself is not counted.
pub struct ContentTally {
    root: String,
    files: usize,
    dirs: usize,
    bytes: u64,
    seen: Ghost<Seq<WalkEntryView>>,
}

impl ContentTally {
    #[verifier::type_invariant]
    spec fn counts_are_right(self) -> bool {
        &&& self.files == sat_usize(walk_files(self.seen@, self.root@))
        &&& self.dirs == sat_usize(walk_dirs(self.seen@, self.root@))
        &&& self.bytes == sat_u64(walk_file_bytes(self.seen@, self.root@))
    }

    /// The root of the walk.
    pub closed spec fn root(self) -> Seq<char> {
        self.root@
    }

    /// The entries taken so far, in order.
    pub closed spec fn seen(self) -> Seq<WalkEntryView> {
        self.seen@
    }

    /// A tally for the walk of `root` that has seen nothing.
    pub fn new(root: &str) -> (t: Self)
        ensures
            t.root() == root@,
            t.seen() == Seq::<WalkEntryView>::empty(),
    {
        ContentTally {
            root: String::from_str(root),
            files: 0,
            dirs: 0,
            bytes: 0,
            seen: Ghost(Seq::empty()),
        }
    }

    /// Takes the next entry of the walk.
    pub fn observe(&mut self, entry: &WalkEntry)
        ensures
            final(self).root() == old(self).root(),
            final(self).seen() == old(self).seen().push(entry@),
    {
        proof {
            use_type_invariant(&*self);
            lemma_walk_counts_push(self.seen@, entry@, self.root@);
        }
        let below_root = entry.path != self.root;
        let mut files = self.files;
        let mut dirs = self.dirs;
        let mut bytes = self.bytes;
        if below_root {
            if entry.kind == NodeKind::File {
                files = files.saturating_add(1);
                if let Some(n) = entry.size {
                    bytes = bytes.saturating_add(n);
                }
            } else if entry.kind == NodeKind::Directory {
                dirs = dirs.saturating_add(1);
            }
        }
        let root = self.root.clone();
        *self = ContentTally { root, files, dirs, bytes, seen: Ghost(self.seen@.push(entry@)) };
    }

    /// The number of regular files met, the number of directories met, and
    /// the bytes of the files; each held as the largest value of its type
    /// where it does not fit.
    pub fn counts(&self) -> (r: (usize, usize, u64))
        ensures
            r.0 == sat_usize(walk_files(self.seen(), self.root())),
            r.1 == sat_usize(walk_dirs(self.seen(), self.root())),
            r.2 == sat_u64(walk_file_bytes(self.seen(), self.root())),
    {
        proof {
            use_type_invariant(self);
        }
        (self.files, self.dirs, self.bytes)
    }
}

/// The bytes of the regular files of a completed walk; `u64::MAX` where the
/// sum does not fit.
pub fn calc_dir_size(entries: &Vec<WalkEntry>) -> (bytes: u64)
    ensures
        bytes == sat_u64(walk_bytes(entries@.map_values(|e: WalkEntry| e@))),
{
    let ghost views = entries@.map_values(|e: WalkEntry| e@);
    let mut sizer = DirSizer::new(0);
    let mut i: usize = 0;
    while i < entries.len()
        invariant
            i <= entries.len(),
            views == entries@.map_values(|e: WalkEntry| e@),
            !sizer.is_stopped(),
            sizer.seen() == views.subrange(0, i as int),
        decreases entries.len() - i,
    {
        sizer.observe(&entries[i], true);
        i += 1;
    }
    assert(views.subrange(0, i as int) =~= views);
    sizer.total()
}

} // verus!
