//! Ordering lists of entries.
//!
//! Entries are sorted by name with directories first, by size with the
//! largest first, or by modification time with the newest first. The sort is
//! stable: entries that the order does not tell apart keep the order they
//! came in.

use vstd::prelude::*;
use vstd::string::*;
use vstd::seq_lib::*;
use crate::app::{CleanableEntry, EntryKind, EntryView, SortOrder};
use crate::cleaner::entry_views;
use crate::text::{str_lt, text_less};

verus! {

/// The size an entry is sorted by: an unknown size sorts as zero.
pub open spec fn size_rank(e: EntryView) -> int {
    match e.size {
        Some(n) => n as int,
        None => 0,
    }
}

/// The time an entry is sorted by: an unknown time sorts as older than any
/// known time.
pub open spec fn time_rank(e: EntryView) -> int {
    match e.modified_at {
        Some(t) => t as int,
        None => -1,
    }
}

/// Whether the order puts `a` before `b`. By name, a directory comes before
/// a file, and of two entries of one kind the one whose name is first in
/// the order of strings. By size, the larger comes first. By time, the
/// newer comes first.
pub open spec fn goes_before(order: SortOrder, a: EntryView, b: EntryView) -> bool {
    match order {
        SortOrder::ByName => if a.kind != b.kind {
            a.kind == EntryKind::Directory
        } else {
            text_less(a.name, b.name)
        },
        SortOrder::BySize => size_rank(a) > size_rank(b),
        SortOrder::ByTime => time_rank(a) > time_rank(b),
    }
}

/// The sorted sequence `s` with `x` put in: `x` goes in front of the
/// entries at the end of `s` that it goes before, and behind all others.
pub open spec fn inserted(order: SortOrder, s: Seq<EntryView>, x: EntryView) -> Seq<EntryView>
    decreases s.len(),
{
    if s.len() > 0 && goes_before(order, x, s.last()) {
        inserted(order, s.drop_last(), x).push(s.last())
    } else {
        s.push(x)
    }
}

/// The entries of `s` in the given order, entries that the order does not
/// tell apart in the order in which they stand in `s`.
pub open spec fn sorted_entries(order: SortOrder, s: Seq<EntryView>) -> Seq<EntryView>
    decreases s.len(),
{
    if s.len() == 0 {
        s
    } else {
        inserted(order, sorted_entries(order, s.drop_last()), s.last())
    }
}

/// Whether no entry of `s` stands behind one that it goes before.
pub open spec fn in_order(order: SortOrder, s: Seq<EntryView>) -> bool {
    forall|i: int, j: int| 0 <= i < j < s.len() ==> !goes_before(order, s[j], s[i])
}

/// Of two strings at most one comes before the other.
pub proof fn lemma_text_less_asymmetric(a: Seq<char>, b: Seq<char>)
    requires
        text_less(a, b),
    ensures
        !text_less(b, a),
    decreases a.len(),
{
    if a.len() > 0 && b.len() > 0 && a[0] == b[0] {
        lemma_text_less_asymmetric(a.skip(1), b.skip(1));
    }
}

/// Of two different strings one comes before the other.
pub proof fn lemma_text_less_connected(a: Seq<char>, b: Seq<char>)
    requires
        a != b,
    ensures
        text_less(a, b) || text_less(b, a),
    decreases a.len(),
{
    if a.len() > 0 && b.len() > 0 {
        if a[0] == b[0] {
            if a.skip(1) == b.skip(1) {
                assert(a =~= seq![a[0]] + a.skip(1));
                assert(b =~= seq![b[0]] + b.skip(1));
            }
            lemma_text_less_connected(a.skip(1), b.skip(1));
        }
    } else if a.len() == 0 && b.len() == 0 {
        assert(a =~= b);
    }
}

/// The order of strings is transitive.
pub proof fn lemma_text_less_transitive(a: Seq<char>, b: Seq<char>, c: Seq<char>)
    requires
        text_less(a, b),
        text_less(b, c),
    ensures
        text_less(a, c),
    decreases a.len(),
{
    if a.len() > 0 && b.len() > 0 && c.len() > 0 {
        if a[0] == b[0] && b[0] == c[0] {
            lemma_text_less_transitive(a.skip(1), b.skip(1), c.skip(1));
        }
    }
}

/// Where `a` does not go before `b` and `b` does not go before `c`, `a`
/// does not go before `c`.
pub proof fn lemma_not_before_transitive(order: SortOrder, a: EntryView, b: EntryView, c: EntryView)
    requires
        !goes_before(order, a, b),
        !goes_before(order, b, c),
    ensures
        !goes_before(order, a, c),
{
    if order == SortOrder::ByName && a.kind == b.kind && b.kind == c.kind {
        if text_less(a.name, c.name) {
            if b.name != a.name && b.name != c.name {
                lemma_text_less_connected(a.name, b.name);
                lemma_text_less_connected(b.name, c.name);
                lemma_text_less_transitive(c.name, b.name, a.name);
                lemma_text_less_asymmetric(a.name, c.name);
            }
        }
    }
}

/// Of two entries at most one goes before the other.
pub proof fn lemma_before_asymmetric(order: SortOrder, a: EntryView, b: EntryView)
    requires
        goes_before(order, a, b),
    ensures
        !goes_before(order, b, a),
{
    if order == SortOrder::ByName && a.kind == b.kind {
        lemma_text_less_asymmetric(a.name, b.name);
    }
}

/// Putting an entry into a sequence adds that entry and nothing else:
/// the result holds the same entries, each as often as before, and the new
/// entry once more.
pub proof fn lemma_inserted_same_entries(order: SortOrder, s: Seq<EntryView>, x: EntryView)
    ensures
        inserted(order, s, x).to_multiset() == s.to_multiset().insert(x),
        inserted(order, s, x).len() == s.len() + 1,
    decreases s.len(),
{
    broadcast use to_multiset_build;

    if s.len() > 0 && goes_before(order, x, s.last()) {
        lemma_inserted_same_entries(order, s.drop_last(), x);
        assert(s.drop_last().push(s.last()) =~= s);
    }
}

/// Sorting rearranges: the sorted sequence holds the same entries as the
/// given one, each as often.
pub proof fn lemma_sorted_same_entries(order: SortOrder, s: Seq<EntryView>)
    ensures
        sorted_entries(order, s).to_multiset() == s.to_multiset(),
        sorted_entries(order, s).len() == s.len(),
    decreases s.len(),
{
    broadcast use to_multiset_build;

    if s.len() > 0 {
        lemma_sorted_same_entries(order, s.drop_last());
        lemma_inserted_same_entries(order, sorted_entries(order, s.drop_last()), s.last());
        assert(s.drop_last().push(s.last()) =~= s);
    }
}

/// Every entry of a sequence with `x` put in is `x` or an entry of the
/// sequence.
proof fn lemma_inserted_members(order: SortOrder, s: Seq<EntryView>, x: EntryView, k: int)
    requires
        0 <= k < inserted(order, s, x).len(),
    ensures
        inserted(order, s, x)[k] == x || exists|i: int|
            0 <= i < s.len() && s[i] == inserted(order, s, x)[k],
    decreases s.len(),
{
    if s.len() > 0 && goes_before(order, x, s.last()) {
        lemma_inserted_same_entries(order, s.drop_last(), x);
        if k < s.len() {
            lemma_inserted_members(order, s.drop_last(), x, k);
        }
    }
}

/// Putting an entry into a sequence that is in order leaves it in order.
pub proof fn lemma_inserted_in_order(order: SortOrder, s: Seq<EntryView>, x: EntryView)
    requires
        in_order(order, s),
    ensures
        in_order(order, inserted(order, s, x)),
    decreases s.len(),
{
    let r = inserted(order, s, x);
    if s.len() > 0 && goes_before(order, x, s.last()) {
        let front = s.drop_last();
        let t = inserted(order, front, x);
        lemma_inserted_in_order(order, front, x);
        assert forall|i: int, j: int| 0 <= i < j < r.len() implies !goes_before(
            order,
            r[j],
            r[i],
        ) by {
            if j >= t.len() {
                lemma_inserted_members(order, front, x, i);
                if t[i] == x {
                    lemma_before_asymmetric(order, x, s.last());
                }
            }
        }
    } else {
        assert forall|i: int, j: int| 0 <= i < j < r.len() implies !goes_before(
            order,
            r[j],
            r[i],
        ) by {
            if j >= s.len() {
                if i < s.len() - 1 {
                    lemma_not_before_transitive(order, x, s.last(), s[i]);
                }
            }
        }
    }
}

/// A sorted sequence is in order: no entry stands behind one that it goes
/// before.
pub proof fn lemma_sorted_in_order(order: SortOrder, s: Seq<EntryView>)
    ensures
        in_order(order, sorted_entries(order, s)),
    decreases s.len(),
{
    if s.len() > 0 {
        lemma_sorted_in_order(order, s.drop_last());
        lemma_inserted_in_order(order, sorted_entries(order, s.drop_last()), s.last());
    }
}

/// Sorting a sequence that is in order changes nothing; so entries that the
/// order does not tell apart are never exchanged, and sorting twice is the
/// same as sorting once.
pub proof fn lemma_sorting_keeps_what_is_in_order(order: SortOrder, s: Seq<EntryView>)
    requires
        in_order(order, s),
    ensures
        sorted_entries(order, s) == s,
        sorted_entries(order, sorted_entries(order, s)) == sorted_entries(order, s),
    decreases s.len(),
{
    if s.len() > 0 {
        let front = s.drop_last();
        lemma_sorting_keeps_what_is_in_order(order, front);
    }
}

/// Sorting twice is the same as sorting once.
pub proof fn lemma_sorting_is_idempotent(order: SortOrder, s: Seq<EntryView>)
    ensures
        sorted_entries(order, sorted_entries(order, s)) == sorted_entries(order, s),
{
    lemma_sorted_in_order(order, s);
    lemma_sorting_keeps_what_is_in_order(order, sorted_entries(order, s));
}

/// Whether the order puts `a` before `b`.
pub fn precedes(order: SortOrder, a: &CleanableEntry, b: &CleanableEntry) -> (r: bool)
    ensures
        r == goes_before(order, a@, b@),
{
    match order {
        SortOrder::ByName => {
            if a.kind != b.kind {
                a.kind == EntryKind::Directory
            } else {
                str_lt(a.name.as_str(), b.name.as_str())
            }
        },
        SortOrder::BySize => {
            let x: u64 = match a.size {
                Some(n) => n,
                None => 0,
            };
            let y: u64 = match b.size {
                Some(n) => n,
                None => 0,
            };
            x > y
        },
        SortOrder::ByTime => {
            match (a.modified_at, b.modified_at) {
                (Some(x), Some(y)) => x > y,
                (Some(_), None) => true,
                (None, _) => false,
            }
        },
    }
}

/// Sorts `entries` in the given order, keeping entries that the order does
/// not tell apart in the order they came in.
pub fn sort_entries(entries: &mut Vec<CleanableEntry>, sort_order: &SortOrder)
    ensures
        entry_views(final(entries)@) == sorted_entries(*sort_order, entry_views(old(entries)@)),
        final(entries)@.len() == old(entries)@.len(),
{
    let order = *sort_order;
    let ghost all = entry_views(entries@);
    let mut out: Vec<CleanableEntry> = Vec::new();
    let mut i: usize = 0;
    while i < entries.len()
        invariant
            i <= entries.len(),
            all == entry_views(entries@),
            out@.len() == i,
            entry_views(out@) == sorted_entries(order, all.subrange(0, i as int)),
        decreases entries.len() - i,
    {
        let item = entries[i].clone();
        let ghost x = item@;
        let ghost ov = entry_views(out@);
        let mut j: usize = out.len();
        assert(ov.subrange(0, j as int) =~= ov);
        while j > 0 && precedes(order, &item, &out[j - 1])
            invariant
                j <= out.len(),
                x == item@,
                ov == entry_views(out@),
                inserted(order, ov, x) == inserted(order, ov.subrange(0, j as int), x)
                    + ov.subrange(j as int, ov.len() as int),
            decreases j,
        {
            proof {
                let front = ov.subrange(0, j as int);
                assert(front.drop_last() =~= ov.subrange(0, j - 1));
            }
            j -= 1;
        }
        proof {
            assert(all.subrange(0, i + 1).drop_last() =~= all.subrange(0, i as int));
        }
        out.insert(j, item);
        i += 1;
    }
    assert(all.subrange(0, i as int) =~= all);
    *entries = out;
}

} // verus!
