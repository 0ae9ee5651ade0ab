//! Sums of the amounts that go to the outputs of a transaction.

use vstd::prelude::*;

verus! {

/// The sum of the amounts for some outputs.
pub open spec fn total_over(outputs: Set<u32>, amounts: Map<u32, u64>) -> int
    decreases outputs.len(),
    when outputs.finite()
{
    if outputs.is_empty() {
        0
    } else {
        let vout = outputs.choose();
        amounts[vout] + total_over(outputs.remove(vout), amounts)
    }
}

/// The sum of all amounts.
pub open spec fn total(amounts: Map<u32, u64>) -> int {
    total_over(amounts.dom(), amounts)
}

/// Any output can be taken out of a sum first.
proof fn lemma_total_remove(outputs: Set<u32>, amounts: Map<u32, u64>, vout: u32)
    requires
        outputs.finite(),
        outputs.contains(vout),
    ensures
        total_over(outputs, amounts) == amounts[vout] + total_over(outputs.remove(vout), amounts),
    decreases outputs.len(),
{
    let first = outputs.choose();
    if first != vout {
        lemma_total_remove(outputs.remove(first), amounts, vout);
        lemma_total_remove(outputs.remove(vout), amounts, first);
        assert(outputs.remove(first).remove(vout) =~= outputs.remove(vout).remove(first));
    }
}

/// A sum depends on the amounts that it sums up alone.
proof fn lemma_total_same(outputs: Set<u32>, a: Map<u32, u64>, b: Map<u32, u64>)
    requires
        outputs.finite(),
        forall|vout: u32| outputs.contains(vout) ==> a[vout] == b[vout],
    ensures
        total_over(outputs, a) == total_over(outputs, b),
    decreases outputs.len(),
{
    if !outputs.is_empty() {
        lemma_total_same(outputs.remove(outputs.choose()), a, b);
    }
}

/// An output that had no amount adds its own to the sum.
pub proof fn lemma_total_insert(amounts: Map<u32, u64>, vout: u32, amount: u64)
    requires
        amounts.dom().finite(),
        !amounts.contains_key(vout),
    ensures
        amounts.insert(vout, amount).dom().finite(),
        total(amounts.insert(vout, amount)) == total(amounts) + amount,
{
    let after = amounts.insert(vout, amount);
    lemma_total_remove(after.dom(), after, vout);
    assert(after.dom().remove(vout) =~= amounts.dom());
    lemma_total_same(amounts.dom(), amounts, after);
}

/// No amounts sum up to nothing.
pub proof fn lemma_total_empty()
    ensures
        Map::<u32, u64>::empty().dom().finite(),
        total(Map::<u32, u64>::empty()) == 0,
{
}

} // verus!
