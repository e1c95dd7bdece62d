use vstd::prelude::*;
use std::collections::HashMap;

verus! {

broadcast use vstd::std_specs::hash::group_hash_axioms;

/// A transaction outpoint, by its 64-bit identifier.
pub type OutpointId = u64;

/// A UTXO entry, by its 64-bit identifier.
pub type EntryId = u64;

/// The UTXO changes of one chain block: the entries it spends and those it
/// creates.
pub struct UtxoDiff {
    pub removed: Vec<(OutpointId, EntryId)>,
    pub added: Vec<(OutpointId, EntryId)>,
}

/// `m` without the outpoints of `s`.
pub open spec fn without(m: Map<OutpointId, EntryId>, s: Seq<(OutpointId, EntryId)>) -> Map<OutpointId, EntryId>
    decreases s.len(),
{
    if s.len() == 0 {
        m
    } else {
        without(m, s.drop_last()).remove(s.last().0)
    }
}

/// `m` with the entries of `s` written over it, later ones last.
pub open spec fn with(m: Map<OutpointId, EntryId>, s: Seq<(OutpointId, EntryId)>) -> Map<OutpointId, EntryId>
    decreases s.len(),
{
    if s.len() == 0 {
        m
    } else {
        with(m, s.drop_last()).insert(s.last().0, s.last().1)
    }
}

/// The UTXO set after one block's diff: spent entries go, then created
/// entries are written.
pub open spec fn after_diff(m: Map<OutpointId, EntryId>, d: &UtxoDiff) -> Map<OutpointId, EntryId> {
    with(without(m, d.removed@), d.added@)
}

/// The UTXO set after the diffs of consecutive chain blocks, in order.
pub open spec fn after_diffs(m: Map<OutpointId, EntryId>, ds: Seq<UtxoDiff>) -> Map<OutpointId, EntryId>
    decreases ds.len(),
{
    if ds.len() == 0 {
        m
    } else {
        after_diff(after_diffs(m, ds.drop_last()), &ds.last())
    }
}

/// Applies one block's diff to the pruning-point UTXO set.
pub fn write_diff(set: &mut HashMap<OutpointId, EntryId>, diff: &UtxoDiff)
    ensures
        final(set)@ == after_diff(old(set)@, diff),
{
    let mut i: usize = 0;
    while i < diff.removed.len()
        invariant
            i <= diff.removed@.len(),
            set@ == without(old(set)@, diff.removed@.subrange(0, i as int)),
        decreases diff.removed.len() - i,
    {
        assert(diff.removed@.subrange(0, i + 1 as int).drop_last() == diff.removed@.subrange(0, i as int));
        set.remove(&diff.removed[i].0);
        i += 1;
    }
    assert(diff.removed@.subrange(0, diff.removed@.len() as int) == diff.removed@);
    let ghost spent = set@;
    let mut j: usize = 0;
    while j < diff.added.len()
        invariant
            j <= diff.added@.len(),
            set@ == with(spent, diff.added@.subrange(0, j as int)),
        decreases diff.added.len() - j,
    {
        assert(diff.added@.subrange(0, j + 1 as int).drop_last() == diff.added@.subrange(0, j as int));
        let (outpoint, entry) = diff.added[j];
        set.insert(outpoint, entry);
        j += 1;
    }
    assert(diff.added@.subrange(0, diff.added@.len() as int) == diff.added@);
}

/// Rolls the pruning-point UTXO set forward along the selected chain: `diffs`
/// are those of the chain blocks after the old pruning point up to and
/// including the new one, in ascending order.
pub fn roll_forward(set: &mut HashMap<OutpointId, EntryId>, diffs: &Vec<UtxoDiff>)
    ensures
        final(set)@ == after_diffs(old(set)@, diffs@),
{
    let mut i: usize = 0;
    while i < diffs.len()
        invariant
            i <= diffs@.len(),
            set@ == after_diffs(old(set)@, diffs@.subrange(0, i as int)),
        decreases diffs.len() - i,
    {
        assert(diffs@.subrange(0, i + 1 as int).drop_last() == diffs@.subrange(0, i as int));
        write_diff(set, &diffs[i]);
        i += 1;
    }
    assert(diffs@.subrange(0, diffs@.len() as int) == diffs@);
}

/// Rolling forward over two consecutive chain segments is rolling forward
/// over the first and then over the second.
pub proof fn lemma_roll_forward_in_stages(m: Map<OutpointId, EntryId>, a: Seq<UtxoDiff>, b: Seq<UtxoDiff>)
    ensures
        after_diffs(m, a + b) == after_diffs(after_diffs(m, a), b),
    decreases b.len(),
{
    if b.len() == 0 {
        assert(a + b =~= a);
    } else {
        lemma_roll_forward_in_stages(m, a, b.drop_last());
        assert((a + b).drop_last() =~= a + b.drop_last());
        assert((a + b).last() == b.last());
    }
}

} // verus!
