//! Totals of sequences of numbers, and how they are held in machine
//! integers: a total that does not fit is held as the largest value.

use vstd::prelude::*;

verus! {

/// The sum of the numbers of `s`.
pub open spec fn total(s: Seq<int>) -> int
    decreases s.len(),
{
    if s.len() == 0 {
        0
    } else {
        total(s.drop_last()) + s.last()
    }
}

/// `n` as a `u64`: `u64::MAX` where it is too large, 0 where it is negative.
pub open spec fn sat_u64(n: int) -> u64 {
    if n >= u64::MAX {
        u64::MAX
    } else if n <= 0 {
        0
    } else {
        n as u64
    }
}

/// `n` as a `usize`: `usize::MAX` where it is too large, 0 where it is
/// negative.
pub open spec fn sat_usize(n: int) -> usize {
    if n >= usize::MAX {
        usize::MAX
    } else if n <= 0 {
        0
    } else {
        n as usize
    }
}

/// Appending a number adds it to the total.
pub proof fn lemma_total_push(s: Seq<int>, x: int)
    ensures
        total(s.push(x)) == total(s) + x,
{
    assert(s.push(x).drop_last() =~= s);
}

/// Replacing one number changes the total by the difference.
pub proof fn lemma_total_update(s: Seq<int>, i: int, x: int)
    requires
        0 <= i < s.len(),
    ensures
        total(s.update(i, x)) == total(s) - s[i] + x,
    decreases s.len(),
{
    if i == s.len() - 1 {
        assert(s.update(i, x).drop_last() =~= s.drop_last());
    } else {
        lemma_total_update(s.drop_last(), i, x);
        assert(s.update(i, x).drop_last() =~= s.drop_last().update(i, x));
    }
}

/// Removing one number takes it off the total.
pub proof fn lemma_total_remove(s: Seq<int>, i: int)
    requires
        0 <= i < s.len(),
    ensures
        total(s.remove(i)) == total(s) - s[i],
    decreases s.len(),
{
    if i != s.len() - 1 {
        lemma_total_remove(s.drop_last(), i);
        assert(s.remove(i).drop_last() =~= s.drop_last().remove(i));
    }
}

} // verus!
