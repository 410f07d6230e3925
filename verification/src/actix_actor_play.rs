//! A counting actor: each `Ping` adds its amount to the count, and the
//! actor answers with the new count.

use vstd::prelude::*;

verus! {

/// A message asking the actor to add the amount it carries.
#[derive(Debug, Clone, Copy)]
pub struct Ping(pub usize);

/// The counting actor.
#[derive(Debug)]
pub struct MyActor {
    pub count: usize,
}

/// The count after adding `amount` to `count`.
pub open spec fn counted(count: int, amount: usize) -> int {
    count + amount
}

/// The count after handling each of `amounts` in turn, starting from
/// `start`.
pub open spec fn count_after(start: int, amounts: Seq<usize>) -> int
    decreases amounts.len(),
{
    if amounts.len() == 0 {
        start
    } else {
        counted(count_after(start, amounts.drop_last()), amounts.last())
    }
}

/// The sum of a run of ping amounts.
pub open spec fn total(amounts: Seq<usize>) -> int
    decreases amounts.len(),
{
    if amounts.len() == 0 {
        0
    } else {
        total(amounts.drop_last()) + amounts.last()
    }
}

impl MyActor {
    /// Adds the ping's amount to the count and answers with the new count.
    /// A sum above `usize::MAX` would overflow, and is left out.
    pub fn handle(&mut self, msg: Ping) -> (count: usize)
        requires
            counted(old(self).count as int, msg.0) <= usize::MAX,
        ensures
            final(self).count == counted(old(self).count as int, msg.0),
            count == final(self).count,
    {
        self.count = self.count + msg.0;
        self.count
    }
}

/// Handling a run of pings one after another leaves the count at its start
/// plus the sum of the amounts.
pub proof fn lemma_count_after_is_start_plus_total(start: int, amounts: Seq<usize>)
    ensures
        count_after(start, amounts) == start + total(amounts),
    decreases amounts.len(),
{
    if amounts.len() > 0 {
        lemma_count_after_is_start_plus_total(start, amounts.drop_last());
    }
}

/// The sum of two runs taken together is the sum of their sums.
pub proof fn lemma_total_concat(a: Seq<usize>, b: Seq<usize>)
    ensures
        total(a + b) == total(a) + total(b),
    decreases b.len(),
{
    if b.len() == 0 {
        assert(a + b =~= a);
    } else {
        assert((a + b).drop_last() =~= a + b.drop_last());
        lemma_total_concat(a, b.drop_last());
    }
}

/// A run of pings may be handled in two pieces, and the two pieces may be
/// handled in either order: all three end at the same count.
pub proof fn lemma_count_after_runs_commute(start: int, a: Seq<usize>, b: Seq<usize>)
    ensures
        count_after(start, a + b) == count_after(count_after(start, a), b),
        count_after(start, a + b) == count_after(start, b + a),
{
    lemma_count_after_is_start_plus_total(start, a + b);
    lemma_count_after_is_start_plus_total(start, b + a);
    lemma_count_after_is_start_plus_total(start, a);
    lemma_count_after_is_start_plus_total(count_after(start, a), b);
    lemma_total_concat(a, b);
    lemma_total_concat(b, a);
}

/// Taking one ping out of a run lowers the run's sum by that ping's amount.
pub proof fn lemma_total_remove(amounts: Seq<usize>, i: int)
    requires
        0 <= i < amounts.len(),
    ensures
        total(amounts) == total(amounts.remove(i)) + amounts[i],
{
    let before = amounts.take(i);
    let after = amounts.skip(i + 1);
    let single = seq![amounts[i]];
    assert(amounts =~= before + (single + after));
    assert(amounts.remove(i) =~= before + after);
    lemma_total_concat(before, single + after);
    lemma_total_concat(single, after);
    lemma_total_concat(before, after);
    assert(single.drop_last() =~= Seq::<usize>::empty());
    assert(single.len() == 1 && single.last() == amounts[i]);
    assert(total(single.drop_last()) == 0);
    assert(total(single) == amounts[i]);
}

/// Two runs made of the same pings, in whatever order, have the same sum.
pub proof fn lemma_total_any_order(a: Seq<usize>, b: Seq<usize>)
    requires
        a.to_multiset() == b.to_multiset(),
    ensures
        total(a) == total(b),
    decreases a.len(),
{
    broadcast use vstd::seq_lib::group_to_multiset_ensures;
    broadcast use vstd::multiset::group_multiset_axioms;

    if a.len() == 0 {
        assert(b.to_multiset().len() == 0);
        assert(b =~= Seq::<usize>::empty());
    } else {
        let x = a.last();
        let rest = a.drop_last();
        assert(rest.push(x) =~= a);
        assert(a.to_multiset() =~= rest.to_multiset().insert(x));
        assert(b.to_multiset().count(x) > 0);
        assert(b.contains(x));
        let i = choose|i: int| 0 <= i < b.len() && b[i] == x;
        assert(b.remove(i).to_multiset() =~= b.to_multiset().remove(x));
        assert(rest.to_multiset().insert(x).remove(x) =~= rest.to_multiset());
        lemma_total_any_order(rest, b.remove(i));
        lemma_total_remove(b, i);
    }
}

/// The count a run of pings ends at does not depend on the order in which
/// the pings arrive: any two runs made of the same pings, in whatever
/// order, end at the same count.
pub proof fn lemma_count_after_any_order(start: int, a: Seq<usize>, b: Seq<usize>)
    requires
        a.to_multiset() == b.to_multiset(),
    ensures
        count_after(start, a) == count_after(start, b),
{
    lemma_count_after_is_start_plus_total(start, a);
    lemma_count_after_is_start_plus_total(start, b);
    lemma_total_any_order(a, b);
}

} // verus!
