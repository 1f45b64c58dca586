//! The selection: what the user has marked for deletion.
//!
//! The selection is kept by path, apart from the list on display, so that
//! it outlives moving from one directory to another. Beside the marked
//! paths it keeps the running total of their sizes. A path is marked at
//! most once, and the total always is the sum of the sizes that are known:
//! a marked path whose size is not known yet counts for nothing until the
//! size arrives.

use vstd::prelude::*;
use vstd::string::*;
use crate::app::EntryKind;
use crate::sums::{total, sat_u64, lemma_total_push, lemma_total_remove, lemma_total_update};

verus! {

/// What the selection keeps of a marked entry.
#[derive(Debug, Clone, Copy, PartialEq, Eq, Structural)]
pub struct SelectedEntry {
    pub kind: EntryKind,
    pub size: Option<u64>,
}

/// A marked path with what is kept of its entry.
#[derive(Debug)]
pub struct SelectionItem {
    pub path: String,
    pub entry: SelectedEntry,
}

/// The values of the marked paths, in the order in which they were marked.
pub open spec fn item_views(items: Seq<SelectionItem>) -> Seq<(Seq<char>, SelectedEntry)> {
    items.map_values(|i: SelectionItem| (i.path@, i.entry))
}

/// The bytes a marked entry counts for.
pub open spec fn known_size(e: SelectedEntry) -> int {
    match e.size {
        Some(n) => n as int,
        None => 0,
    }
}

/// The sum of the known sizes of a selection.
pub open spec fn selected_bytes(sel: Seq<(Seq<char>, SelectedEntry)>) -> int {
    total(Seq::new(sel.len(), |i: int| known_size(sel[i].1)))
}

/// Whether `path` is marked.
pub open spec fn has_path(sel: Seq<(Seq<char>, SelectedEntry)>, path: Seq<char>) -> bool {
    exists|i: int| 0 <= i < sel.len() && (#[trigger] sel[i]).0 == path
}

/// Whether no path is marked twice.
pub open spec fn distinct_paths(sel: Seq<(Seq<char>, SelectedEntry)>) -> bool {
    forall|i: int, j: int|
        0 <= i < sel.len() && 0 <= j < sel.len() && i != j ==> (#[trigger] sel[i]).0 != (
        #[trigger] sel[j]).0
}

/// The entry with its size made known.
pub open spec fn with_size(e: SelectedEntry, size: u64) -> SelectedEntry {
    SelectedEntry { kind: e.kind, size: Some(size) }
}

/// Marking one more path adds its known size to the sum.
pub proof fn lemma_selected_bytes_push(
    sel: Seq<(Seq<char>, SelectedEntry)>,
    item: (Seq<char>, SelectedEntry),
)
    ensures
        selected_bytes(sel.push(item)) == selected_bytes(sel) + known_size(item.1),
        selected_bytes(sel) >= 0,
    decreases sel.len(),
{
    let more = sel.push(item);
    let f = Seq::new(sel.len(), |i: int| known_size(sel[i].1));
    let g = Seq::new(more.len(), |i: int| known_size(more[i].1));
    assert(g =~= f.push(known_size(item.1)));
    lemma_total_push(f, known_size(item.1));
    if sel.len() > 0 {
        lemma_selected_bytes_push(sel.drop_last(), sel.last());
        assert(sel.drop_last().push(sel.last()) =~= sel);
    }
}

/// Unmarking a path takes its known size off the sum.
pub proof fn lemma_selected_bytes_remove(sel: Seq<(Seq<char>, SelectedEntry)>, i: int)
    requires
        0 <= i < sel.len(),
    ensures
        selected_bytes(sel.remove(i)) == selected_bytes(sel) - known_size(sel[i].1),
{
    let less = sel.remove(i);
    let f = Seq::new(sel.len(), |k: int| known_size(sel[k].1));
    let g = Seq::new(less.len(), |k: int| known_size(less[k].1));
    assert(g =~= f.remove(i));
    lemma_total_remove(f, i);
}

/// A size that arrives for a marked path of unknown size adds to the sum.
pub proof fn lemma_selected_bytes_fill(sel: Seq<(Seq<char>, SelectedEntry)>, i: int, size: u64)
    requires
        0 <= i < sel.len(),
        sel[i].1.size is None,
    ensures
        selected_bytes(sel.update(i, (sel[i].0, with_size(sel[i].1, size)))) == selected_bytes(sel)
            + size,
{
    let filled = sel.update(i, (sel[i].0, with_size(sel[i].1, size)));
    let f = Seq::new(sel.len(), |k: int| known_size(sel[k].1));
    let g = Seq::new(filled.len(), |k: int| known_size(filled[k].1));
    assert(g =~= f.update(i, size as int));
    lemma_total_update(f, i, size as int);
}

/// What is kept of `path`, where it is marked.
pub open spec fn entry_of(sel: Seq<(Seq<char>, SelectedEntry)>, path: Seq<char>) -> Option<
    SelectedEntry,
>
    decreases sel.len(),
{
    if sel.len() == 0 {
        None
    } else if sel.last().0 == path {
        Some(sel.last().1)
    } else {
        entry_of(sel.drop_last(), path)
    }
}

/// The selection with `path` marked: a path that is marked already keeps
/// what it was marked with.
pub open spec fn marked(sel: Seq<(Seq<char>, SelectedEntry)>, path: Seq<char>, entry: SelectedEntry)
    -> Seq<(Seq<char>, SelectedEntry)> {
    if has_path(sel, path) {
        sel
    } else {
        sel.push((path, entry))
    }
}

/// The selection without `path`; the other paths keep their order.
pub open spec fn without(sel: Seq<(Seq<char>, SelectedEntry)>, path: Seq<char>) -> Seq<
    (Seq<char>, SelectedEntry),
>
    decreases sel.len(),
{
    if sel.len() == 0 {
        sel
    } else if sel.last().0 == path {
        without(sel.drop_last(), path)
    } else {
        without(sel.drop_last(), path).push(sel.last())
    }
}

/// The selection after the size of `path` arrived: where `path` is marked
/// without a size, it now has the size; a size that was known stays.
pub open spec fn filled(sel: Seq<(Seq<char>, SelectedEntry)>, path: Seq<char>, size: u64) -> Seq<
    (Seq<char>, SelectedEntry),
> {
    Seq::new(
        sel.len(),
        |i: int|
            if sel[i].0 == path && sel[i].1.size is None {
                (sel[i].0, with_size(sel[i].1, size))
            } else {
                sel[i]
            },
    )
}

/// A size that arrives a second time changes nothing: once the size of a
/// path is known it is never written again.
pub proof fn lemma_fill_is_idempotent(
    sel: Seq<(Seq<char>, SelectedEntry)>,
    path: Seq<char>,
    first: u64,
    second: u64,
)
    ensures
        filled(filled(sel, path, first), path, second) == filled(sel, path, first),
        selected_bytes(filled(filled(sel, path, first), path, second)) == selected_bytes(
            filled(sel, path, first),
        ),
{
    assert(filled(filled(sel, path, first), path, second) =~= filled(sel, path, first));
}

/// A size that arrives for a path whose size is known, or for a path that
/// is not marked, changes nothing.
pub proof fn lemma_fill_of_known_size(
    sel: Seq<(Seq<char>, SelectedEntry)>,
    path: Seq<char>,
    size: u64,
)
    requires
        forall|i: int|
            0 <= i < sel.len() && (#[trigger] sel[i]).0 == path ==> sel[i].1.size is Some,
    ensures
        filled(sel, path, size) == sel,
{
}

/// In a selection without `path`, `path` is not marked, and every other
/// path is marked as before.
pub proof fn lemma_without(sel: Seq<(Seq<char>, SelectedEntry)>, path: Seq<char>)
    ensures
        !has_path(without(sel, path), path),
        without(sel, path).len() <= sel.len(),
        forall|k: int|
            0 <= k < without(sel, path).len() ==> exists|i: int|
                0 <= i < sel.len() && sel[i] == #[trigger] without(sel, path)[k],
        !has_path(sel, path) ==> without(sel, path) == sel,
    decreases sel.len(),
{
    if sel.len() > 0 {
        let front = sel.drop_last();
        lemma_without(front, path);
        let w = without(sel, path);
        if !has_path(sel, path) {
        }
    }
}

/// Where no path is marked twice, taking out the one position at which
/// `path` stands gives the selection without `path`, and what was kept of
/// `path` is what stood there.
pub proof fn lemma_remove_is_without(sel: Seq<(Seq<char>, SelectedEntry)>, i: int)
    requires
        distinct_paths(sel),
        0 <= i < sel.len(),
    ensures
        sel.remove(i) == without(sel, sel[i].0),
        entry_of(sel, sel[i].0) == Some(sel[i].1),
    decreases sel.len(),
{
    let path = sel[i].0;
    let front = sel.drop_last();
    if i == sel.len() - 1 {
        lemma_without(front, path);
    } else {
        lemma_remove_is_without(front, i);
    }
}

/// A path that is not marked has nothing kept.
pub proof fn lemma_entry_of_unmarked(sel: Seq<(Seq<char>, SelectedEntry)>, path: Seq<char>)
    ensures
        has_path(sel, path) <==> entry_of(sel, path) is Some,
    decreases sel.len(),
{
    if sel.len() > 0 {
        let front = sel.drop_last();
        lemma_entry_of_unmarked(front, path);
        if sel.last().0 != path {
            if has_path(sel, path) {
                let i = choose|i: int| 0 <= i < sel.len() && (#[trigger] sel[i]).0 == path;
                assert(front[i].0 == path);
            }
        }
    }
}

/// The position of `path` among `items`, if it is marked.
fn position(items: &Vec<SelectionItem>, path: &str) -> (r: Option<usize>)
    ensures
        match r {
            Some(i) => i < items.len() && items[i as int].path@ == path@,
            None => !has_path(item_views(items@), path@),
        },
{
    let wanted = String::from_str(path);
    let mut i: usize = 0;
    while i < items.len()
        invariant
            i <= items.len(),
            wanted@ == path@,
            forall|k: int| 0 <= k < i ==> items[k].path@ != path@,
        decreases items.len() - i,
    {
        if items[i].path == wanted {
            return Some(i);
        }
        i += 1;
    }
    None
}

/// The known sizes of `items`, summed up.
fn sum_known(items: &Vec<SelectionItem>) -> (r: u64)
    ensures
        r == sat_u64(selected_bytes(item_views(items@))),
{
    let ghost all = item_views(items@);
    let mut sum: u64 = 0;
    let mut i: usize = 0;
    while i < items.len()
        invariant
            i <= items.len(),
            all == item_views(items@),
            sum == sat_u64(selected_bytes(all.subrange(0, i as int))),
        decreases items.len() - i,
    {
        proof {
            lemma_selected_bytes_push(all.subrange(0, i as int), all[i as int]);
            assert(all.subrange(0, i as int).push(all[i as int]) =~= all.subrange(0, i + 1));
        }
        match items[i].entry.size {
            Some(n) => {
                sum = sum.saturating_add(n);
            },
            None => {},
        }
        i += 1;
    }
    assert(all.subrange(0, i as int) =~= all);
    sum
}

/// Marks `path` where it is not marked yet, and keeps the total right.
fn mark(items: &mut Vec<SelectionItem>, sum: &mut u64, path: String, entry: SelectedEntry) -> (r:
    bool)
    requires
        distinct_paths(item_views(old(items)@)),
        *old(sum) == sat_u64(selected_bytes(item_views(old(items)@))),
    ensures
        distinct_paths(item_views(final(items)@)),
        *final(sum) == sat_u64(selected_bytes(item_views(final(items)@))),
        r == !has_path(item_views(old(items)@), path@),
        item_views(final(items)@) == if r {
            item_views(old(items)@).push((path@, entry))
        } else {
            item_views(old(items)@)
        },
{
    let ghost before = item_views(items@);
    match position(items, path.as_str()) {
        Some(i) => {
            assert(before[i as int].0 == path@);
            false
        },
        None => {
            proof {
                lemma_selected_bytes_push(before, (path@, entry));
            }
            match entry.size {
                Some(n) => {
                    *sum = sum.saturating_add(n);
                },
                None => {},
            }
            items.push(SelectionItem { path, entry });
            assert(item_views(items@) =~= before.push((path@, entry)));
            true
        },
    }
}

/// Unmarks `path` where it is marked, and keeps the total right.
fn unmark(items: &mut Vec<SelectionItem>, sum: &mut u64, path: &str) -> (r: Option<SelectedEntry>)
    requires
        distinct_paths(item_views(old(items)@)),
        *old(sum) == sat_u64(selected_bytes(item_views(old(items)@))),
    ensures
        distinct_paths(item_views(final(items)@)),
        *final(sum) == sat_u64(selected_bytes(item_views(final(items)@))),
        match r {
            Some(entry) => exists|i: int|
                0 <= i < old(items)@.len() && #[trigger] item_views(old(items)@)[i] == (
                    path@,
                    entry,
                ) && item_views(final(items)@) == item_views(old(items)@).remove(i),
            None => !has_path(item_views(old(items)@), path@) && item_views(final(items)@)
                == item_views(old(items)@),
        },
{
    let ghost before = item_views(items@);
    match position(items, path) {
        Some(i) => {
            proof {
                lemma_selected_bytes_remove(before, i as int);
                lemma_selected_bytes_push(before.remove(i as int), before[i as int]);
            }
            let gone = items.remove(i);
            assert(item_views(items@) =~= before.remove(i as int));
            if *sum < u64::MAX {
                match gone.entry.size {
                    Some(n) => {
                        *sum = *sum - n;
                    },
                    None => {},
                }
            } else {
                *sum = sum_known(items);
            }
            Some(gone.entry)
        },
        None => None,
    }
}

/// Makes the size of `path` known where it is marked without one, and
/// keeps the total right.
fn fill(items: &mut Vec<SelectionItem>, sum: &mut u64, path: &str, size: u64) -> (r: bool)
    requires
        distinct_paths(item_views(old(items)@)),
        *old(sum) == sat_u64(selected_bytes(item_views(old(items)@))),
    ensures
        distinct_paths(item_views(final(items)@)),
        *final(sum) == sat_u64(selected_bytes(item_views(final(items)@))),
        r ==> exists|i: int|
            0 <= i < old(items)@.len() && (#[trigger] item_views(old(items)@)[i]).0 == path@
                && item_views(old(items)@)[i].1.size is None && item_views(final(items)@)
                == item_views(old(items)@).update(
                i,
                (path@, with_size(item_views(old(items)@)[i].1, size)),
            ),
        !r ==> item_views(final(items)@) == item_views(old(items)@),
        !r ==> forall|i: int|
            0 <= i < old(items)@.len() && (#[trigger] item_views(old(items)@)[i]).0 == path@
                ==> item_views(old(items)@)[i].1.size is Some,
{
    let ghost before = item_views(items@);
    match position(items, path) {
        Some(i) => {
            let entry = items[i].entry;
            if entry.size.is_none() {
                proof {
                    lemma_selected_bytes_fill(before, i as int, size);
                    lemma_selected_bytes_push(before, before[0]);
                }
                let kept = items[i].path.clone();
                let filled_in = SelectedEntry { kind: entry.kind, size: Some(size) };
                items.set(i, SelectionItem { path: kept, entry: filled_in });
                *sum = sum.saturating_add(size);
                assert(item_views(items@) =~= before.update(
                    i as int,
                    (path@, with_size(before[i as int].1, size)),
                ));
                true
            } else {
                false
            }
        },
        None => false,
    }
}

/// The marked paths, with the running total of their known sizes.
pub struct Selection {
    items: Vec<SelectionItem>,
    /// The running total; `None` only while the selection is being changed.
    sum: Option<u64>,
}

impl View for Selection {
    type V = Seq<(Seq<char>, SelectedEntry)>;

    closed spec fn view(&self) -> Seq<(Seq<char>, SelectedEntry)> {
        item_views(self.items@)
    }
}

impl Selection {
    #[verifier::type_invariant]
    spec fn total_is_sum(self) -> bool {
        &&& distinct_paths(item_views(self.items@))
        &&& self.sum is Some ==> self.sum.unwrap() == sat_u64(
            selected_bytes(item_views(self.items@)),
        )
    }

    /// The empty selection.
    pub fn new() -> (s: Self)
        ensures
            s@ == Seq::<(Seq<char>, SelectedEntry)>::empty(),
    {
        let s = Selection { items: Vec::new(), sum: Some(0) };
        s
    }

    /// Takes the marked paths and their total out, to change them.
    fn take_parts(&mut self) -> (parts: (Vec<SelectionItem>, u64))
        ensures
            item_views(parts.0@) == old(self)@,
            distinct_paths(item_views(parts.0@)),
            parts.1 == sat_u64(selected_bytes(item_views(parts.0@))),
    {
        proof {
            use_type_invariant(&*self);
        }
        let held = self.sum;
        self.sum = None;
        let mut items: Vec<SelectionItem> = Vec::new();
        std::mem::swap(&mut items, &mut self.items);
        let sum = match held {
            Some(sum) => sum,
            None => sum_known(&items),
        };
        (items, sum)
    }

    /// Puts the marked paths and their total back.
    fn put_parts(&mut self, items: Vec<SelectionItem>, sum: u64)
        requires
            distinct_paths(item_views(items@)),
            sum == sat_u64(selected_bytes(item_views(items@))),
        ensures
            final(self)@ == item_views(items@),
    {
        *self = Selection { items, sum: Some(sum) };
    }

    /// The number of marked paths. No path is marked twice.
    pub fn len(&self) -> (n: usize)
        ensures
            n == self@.len(),
            distinct_paths(self@),
    {
        proof {
            use_type_invariant(self);
        }
        self.items.len()
    }

    pub fn is_empty(&self) -> (r: bool)
        ensures
            r == (self@.len() == 0),
    {
        self.items.len() == 0
    }

    /// Whether `path` is marked.
    pub fn contains_key(&self, path: &str) -> (r: bool)
        ensures
            r == has_path(self@, path@),
    {
        match position(&self.items, path) {
            Some(i) => {
                assert(self@[i as int].0 == path@);
                true
            },
            None => false,
        }
    }

    /// What is kept of `path`, where it is marked.
    pub fn get(&self, path: &str) -> (r: Option<SelectedEntry>)
        ensures
            r == entry_of(self@, path@),
    {
        proof {
            use_type_invariant(self);
            lemma_entry_of_unmarked(self@, path@);
        }
        match position(&self.items, path) {
            Some(i) => {
                proof {
                    lemma_remove_is_without(self@, i as int);
                }
                Some(self.items[i].entry)
            },
            None => None,
        }
    }

    /// Marks `path` where it is not marked yet; a marked path keeps what it
    /// was marked with. Returns whether the path was newly marked.
    pub fn insert(&mut self, path: String, entry: SelectedEntry) -> (r: bool)
        ensures
            r == !has_path(old(self)@, path@),
            final(self)@ == marked(old(self)@, path@, entry),
    {
        let (mut items, mut sum) = self.take_parts();
        let r = mark(&mut items, &mut sum, path, entry);
        self.put_parts(items, sum);
        r
    }

    /// Unmarks `path`, and returns what was kept of it; the other paths
    /// keep their order.
    pub fn remove(&mut self, path: &str) -> (r: Option<SelectedEntry>)
        ensures
            r == entry_of(old(self)@, path@),
            final(self)@ == without(old(self)@, path@),
    {
        let (mut items, mut sum) = self.take_parts();
        let ghost before = item_views(items@);
        let r = unmark(&mut items, &mut sum, path);
        proof {
            lemma_entry_of_unmarked(before, path@);
            lemma_without(before, path@);
            if r is Some {
                let i = choose|i: int|
                    0 <= i < before.len() && #[trigger] before[i] == (path@, r.unwrap())
                        && item_views(items@) == before.remove(i);
                lemma_remove_is_without(before, i);
            }
        }
        self.put_parts(items, sum);
        r
    }

    /// Makes the size of `path` known, where `path` is marked and its size
    /// is not known yet, and returns whether it did. A size that is known
    /// is never written again.
    pub fn fill_size(&mut self, path: &str, size: u64) -> (r: bool)
        ensures
            final(self)@ == filled(old(self)@, path@, size),
            r == (final(self)@ != old(self)@),
    {
        let (mut items, mut sum) = self.take_parts();
        let r = fill(&mut items, &mut sum, path, size);
        self.put_parts(items, sum);
        r
    }

    /// Unmarks every path.
    pub fn clear(&mut self)
        ensures
            final(self)@ == Seq::<(Seq<char>, SelectedEntry)>::empty(),
    {
        *self = Selection::new();
    }

    /// The total of the known sizes of the marked paths, held as `u64::MAX`
    /// where it does not fit.
    pub fn total(&self) -> (bytes: u64)
        ensures
            bytes == sat_u64(selected_bytes(self@)),
    {
        proof {
            use_type_invariant(self);
        }
        match self.sum {
            Some(sum) => sum,
            None => sum_known(&self.items),
        }
    }

    /// The marked path at position `i`, with what is kept of it.
    pub fn item(&self, i: usize) -> (r: &SelectionItem)
        requires
            i < self@.len(),
        ensures
            (r.path@, r.entry) == self@[i as int],
    {
        &self.items[i]
    }
}

/// Whatever is marked, unmarked or filled in, and in whatever order, the
/// running total of a selection is the sum of the sizes that are known,
/// held as `u64::MAX` where the sum does not fit; and where the sum fits,
/// the total is the sum itself.
pub proof fn lemma_total_is_sum(sel: Seq<(Seq<char>, SelectedEntry)>)
    ensures
        selected_bytes(sel) >= 0,
        selected_bytes(sel) <= u64::MAX ==> sat_u64(selected_bytes(sel)) == selected_bytes(sel),
{
    if sel.len() > 0 {
        lemma_selected_bytes_push(sel.drop_last(), sel.last());
        assert(sel.drop_last().push(sel.last()) =~= sel);
    }
}

} // verus!
