use vstd::prelude::*;
use crate::model::{BlockHash, contains_hash, origin, spec_origin};

verus! {

/// The GHOSTDAG record of a block.
pub struct GhostdagData {
    pub blue_score: u64,
    pub blue_work: u128,
    pub selected_parent: BlockHash,
    pub mergeset_blues: Vec<BlockHash>,
    pub mergeset_reds: Vec<BlockHash>,
    pub blues_anticone_sizes: Vec<(BlockHash, u16)>,
}

/// The elements of `s` that occur in `keep`, in their order.
pub open spec fn retain_kept(s: Seq<BlockHash>, keep: Seq<BlockHash>) -> Seq<BlockHash>
    decreases s.len(),
{
    if s.len() == 0 {
        Seq::empty()
    } else {
        let rest = retain_kept(s.drop_last(), keep);
        if keep.contains(s.last()) {
            rest.push(s.last())
        } else {
            rest
        }
    }
}

/// The entries of `s` whose key occurs in `keep`, in their order.
pub open spec fn retain_kept_keys(s: Seq<(BlockHash, u16)>, keep: Seq<BlockHash>) -> Seq<(BlockHash, u16)>
    decreases s.len(),
{
    if s.len() == 0 {
        Seq::empty()
    } else {
        let rest = retain_kept_keys(s.drop_last(), keep);
        if keep.contains(s.last().0) {
            rest.push(s.last())
        } else {
            rest
        }
    }
}

/// Whether every element of `s` occurs in `keep`.
pub open spec fn all_kept(s: Seq<BlockHash>, keep: Seq<BlockHash>) -> bool {
    forall|i: int| 0 <= i < s.len() ==> keep.contains(#[trigger] s[i])
}

fn all_kept_exec(s: &Vec<BlockHash>, keep: &Vec<BlockHash>) -> (r: bool)
    ensures
        r == all_kept(s@, keep@),
{
    let mut i: usize = 0;
    while i < s.len()
        invariant
            i <= s@.len(),
            forall|j: int| 0 <= j < i ==> keep@.contains(#[trigger] s@[j]),
        decreases s.len() - i,
    {
        if !contains_hash(keep, s[i]) {
            return false;
        }
        i += 1;
    }
    true
}

fn retain_kept_exec(s: &Vec<BlockHash>, keep: &Vec<BlockHash>) -> (r: Vec<BlockHash>)
    ensures
        r@ == retain_kept(s@, keep@),
{
    let mut r: Vec<BlockHash> = Vec::new();
    let mut i: usize = 0;
    while i < s.len()
        invariant
            i <= s@.len(),
            r@ == retain_kept(s@.subrange(0, i as int), keep@),
        decreases s.len() - i,
    {
        assert(s@.subrange(0, i + 1 as int).drop_last() == s@.subrange(0, i as int));
        if contains_hash(keep, s[i]) {
            r.push(s[i]);
        }
        i += 1;
    }
    assert(s@.subrange(0, s@.len() as int) == s@);
    r
}

fn retain_kept_keys_exec(s: &Vec<(BlockHash, u16)>, keep: &Vec<BlockHash>) -> (r: Vec<(BlockHash, u16)>)
    ensures
        r@ == retain_kept_keys(s@, keep@),
{
    let mut r: Vec<(BlockHash, u16)> = Vec::new();
    let mut i: usize = 0;
    while i < s.len()
        invariant
            i <= s@.len(),
            r@ == retain_kept_keys(s@.subrange(0, i as int), keep@),
        decreases s.len() - i,
    {
        assert(s@.subrange(0, i + 1 as int).drop_last() == s@.subrange(0, i as int));
        if contains_hash(keep, s[i].0) {
            r.push(s[i]);
        }
        i += 1;
    }
    assert(s@.subrange(0, s@.len() as int) == s@);
    r
}

/// Whether `r` is the compaction of `gd` for the blocks of `keep`: `None`
/// when the whole mergeset is kept, else the record restricted to kept blocks.
pub open spec fn compaction_of(gd: &GhostdagData, keep: Seq<BlockHash>, r: Option<GhostdagData>) -> bool {
    &&& (r is None <==> all_kept(gd.mergeset_blues@, keep) && all_kept(gd.mergeset_reds@, keep))
    &&& (r is Some ==> {
        let c = r->Some_0;
        &&& c.blue_score == gd.blue_score
        &&& c.blue_work == gd.blue_work
        &&& c.selected_parent == (if keep.contains(gd.selected_parent) {
            gd.selected_parent
        } else {
            spec_origin()
        })
        &&& c.mergeset_blues@ == retain_kept(gd.mergeset_blues@, keep)
        &&& c.mergeset_reds@ == retain_kept(gd.mergeset_reds@, keep)
        &&& c.blues_anticone_sizes@ == retain_kept_keys(gd.blues_anticone_sizes@, keep)
    })
}

/// Compacts the GHOSTDAG record of a block whose relations are kept.
/// Returns `None` when its whole mergeset is kept and the record stays as it
/// is; otherwise the record with mergeset and anticone sizes restricted to
/// kept blocks, and `ORIGIN` for a selected parent that is not kept.
pub fn compact_ghostdag(gd: &GhostdagData, keep_relations: &Vec<BlockHash>) -> (r: Option<GhostdagData>)
    ensures
        compaction_of(gd, keep_relations@, r),
{
    if all_kept_exec(&gd.mergeset_blues, keep_relations) && all_kept_exec(&gd.mergeset_reds, keep_relations) {
        return None;
    }
    let selected_parent = if contains_hash(keep_relations, gd.selected_parent) {
        gd.selected_parent
    } else {
        origin()
    };
    Some(GhostdagData {
        blue_score: gd.blue_score,
        blue_work: gd.blue_work,
        selected_parent,
        mergeset_blues: retain_kept_exec(&gd.mergeset_blues, keep_relations),
        mergeset_reds: retain_kept_exec(&gd.mergeset_reds, keep_relations),
        blues_anticone_sizes: retain_kept_keys_exec(&gd.blues_anticone_sizes, keep_relations),
    })
}

/// Compacts the GHOSTDAG records of the kept blocks that have one: entry `i`
/// of the result is the compaction of record `i`, `None` where the record
/// stays as it is.
pub fn compact_kept_records(records: &Vec<(BlockHash, GhostdagData)>, keep_relations: &Vec<BlockHash>) -> (r: Vec<
    Option<GhostdagData>,
>)
    ensures
        r@.len() == records@.len(),
        forall|i: int| 0 <= i < records@.len() ==> compaction_of(&records@[i].1, keep_relations@, #[trigger] r@[i]),
{
    let mut r: Vec<Option<GhostdagData>> = Vec::new();
    let mut i: usize = 0;
    while i < records.len()
        invariant
            i <= records@.len(),
            r@.len() == i,
            forall|j: int| 0 <= j < i ==> compaction_of(&records@[j].1, keep_relations@, #[trigger] r@[j]),
        decreases records.len() - i,
    {
        let c = compact_ghostdag(&records[i].1, keep_relations);
        r.push(c);
        i += 1;
    }
    r
}

/// A compacted mergeset names kept blocks only.
pub proof fn lemma_retain_kept_only_kept(s: Seq<BlockHash>, keep: Seq<BlockHash>)
    ensures
        all_kept(retain_kept(s, keep), keep),
    decreases s.len(),
{
    if s.len() > 0 {
        lemma_retain_kept_only_kept(s.drop_last(), keep);
        let rest = retain_kept(s.drop_last(), keep);
        if keep.contains(s.last()) {
            assert forall|i: int| 0 <= i < rest.push(s.last()).len() implies keep.contains(
                #[trigger] rest.push(s.last())[i],
            ) by {
                if i < rest.len() {
                    assert(keep.contains(rest[i]));
                }
            }
        }
    }
}

/// After compaction, every block a record names is kept, but for `ORIGIN`
/// in place of a pruned selected parent.
pub proof fn lemma_compacted_names_kept(gd: &GhostdagData, keep_relations: Seq<BlockHash>, c: &GhostdagData)
    requires
        c.selected_parent == (if keep_relations.contains(gd.selected_parent) {
            gd.selected_parent
        } else {
            spec_origin()
        }),
        c.mergeset_blues@ == retain_kept(gd.mergeset_blues@, keep_relations),
        c.mergeset_reds@ == retain_kept(gd.mergeset_reds@, keep_relations),
    ensures
        all_kept(c.mergeset_blues@, keep_relations),
        all_kept(c.mergeset_reds@, keep_relations),
        keep_relations.contains(c.selected_parent) || c.selected_parent == spec_origin(),
{
    lemma_retain_kept_only_kept(gd.mergeset_blues@, keep_relations);
    lemma_retain_kept_only_kept(gd.mergeset_reds@, keep_relations);
}

} // verus!
