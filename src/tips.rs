use vstd::prelude::*;
use crate::model::BlockHash;

verus! {

/// The elements of `s` whose flag in `mask` equals `keep`, in their order.
pub open spec fn select(s: Seq<BlockHash>, mask: Seq<bool>, keep: bool) -> Seq<BlockHash>
    decreases s.len(),
{
    if s.len() == 0 || mask.len() != s.len() {
        Seq::empty()
    } else {
        let rest = select(s.drop_last(), mask.drop_last(), keep);
        if mask.last() == keep {
            rest.push(s.last())
        } else {
            rest
        }
    }
}

/// Splits the body tips by whether the new pruning point is an ancestor of
/// each (`in_future[i]` for `tips[i]`): the first list is retained, the
/// second is pruned, since virtual can never merge it again.
pub fn split_tips(tips: &Vec<BlockHash>, in_future: &Vec<bool>) -> (r: (Vec<BlockHash>, Vec<BlockHash>))
    requires
        tips@.len() == in_future@.len(),
    ensures
        r.0@ == select(tips@, in_future@, true),
        r.1@ == select(tips@, in_future@, false),
{
    let mut retained: Vec<BlockHash> = Vec::new();
    let mut pruned: Vec<BlockHash> = Vec::new();
    let mut i: usize = 0;
    while i < tips.len()
        invariant
            tips@.len() == in_future@.len(),
            i <= tips@.len(),
            retained@ == select(tips@.subrange(0, i as int), in_future@.subrange(0, i as int), true),
            pruned@ == select(tips@.subrange(0, i as int), in_future@.subrange(0, i as int), false),
        decreases tips.len() - i,
    {
        assert(tips@.subrange(0, i + 1 as int).drop_last() == tips@.subrange(0, i as int));
        assert(in_future@.subrange(0, i + 1 as int).drop_last() == in_future@.subrange(0, i as int));
        if in_future[i] {
            retained.push(tips[i]);
        } else {
            pruned.push(tips[i]);
        }
        i += 1;
    }
    assert(tips@.subrange(0, tips@.len() as int) == tips@);
    assert(in_future@.subrange(0, in_future@.len() as int) == in_future@);
    (retained, pruned)
}

/// Every tip that survives tip pruning is in the future of the new pruning
/// point, and every pruned one is not.
pub proof fn lemma_split_tips_sound(s: Seq<BlockHash>, mask: Seq<bool>, keep: bool, t: BlockHash)
    requires
        s.len() == mask.len(),
        select(s, mask, keep).contains(t),
    ensures
        exists|i: int| 0 <= i < s.len() && s[i] == t && mask[i] == keep,
    decreases s.len(),
{
    let rest = select(s.drop_last(), mask.drop_last(), keep);
    if mask.last() == keep && t == s.last() {
        assert(s[s.len() - 1] == t && mask[s.len() - 1] == keep);
    } else {
        if mask.last() == keep {
            let k = choose|k: int| 0 <= k < rest.push(s.last()).len() && rest.push(s.last())[k] == t;
            assert(rest[k] == t);
        }
        lemma_split_tips_sound(s.drop_last(), mask.drop_last(), keep, t);
        let i = choose|i: int| 0 <= i < s.drop_last().len() && s.drop_last()[i] == t && mask.drop_last()[i] == keep;
        assert(s[i] == t && mask[i] == keep);
    }
}

} // verus!
