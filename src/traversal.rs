use vstd::prelude::*;
use crate::model::{BlockHash, BlockStatus, extend_hashes};
use crate::keep_sets::KeepSets;

verus! {

/// Longest time, in microseconds, that the traversal holds the consensus
/// lock before yielding it to waiting block processors.
pub const YIELD_BUDGET_MICROS: u64 = 5000;

/// What the traversal does with a visited block.
#[derive(PartialEq, Eq, Structural, Clone, Copy, Debug)]
pub enum BlockAction {
    /// The block is in the future of the new pruning point: left untouched,
    /// and its reachability subtree is not walked.
    SkipFuture,
    /// The block is kept whole; only its window-cache entries are dropped.
    KeepWhole,
    /// Body and UTXO data are deleted; header, relations and GHOSTDAG data
    /// stay, and the status becomes header-only.
    KeepHeaderOnly,
    /// Everything is deleted, the header too unless `keep_header`.
    Prune { keep_header: bool },
}

/// The action owed to block `h`, given whether the new pruning point is its
/// ancestor and the three keep sets.
pub open spec fn action_for(
    h: BlockHash,
    in_future: bool,
    blocks: Seq<BlockHash>,
    relations: Seq<BlockHash>,
    headers: Seq<BlockHash>,
) -> BlockAction {
    if in_future {
        BlockAction::SkipFuture
    } else if blocks.contains(h) {
        BlockAction::KeepWhole
    } else if relations.contains(h) {
        BlockAction::KeepHeaderOnly
    } else {
        BlockAction::Prune { keep_header: headers.contains(h) }
    }
}

/// Decides what happens to `current`.
pub fn classify_block(current: BlockHash, in_future: bool, keep: &KeepSets) -> (r: BlockAction)
    ensures
        r == action_for(current, in_future, keep.blocks@, keep.relations@, keep.headers@),
{
    if in_future {
        BlockAction::SkipFuture
    } else if keep.keeps_block(current) {
        BlockAction::KeepWhole
    } else if keep.keeps_relations(current) {
        BlockAction::KeepHeaderOnly
    } else {
        BlockAction::Prune { keep_header: keep.keeps_header(current) }
    }
}

/// Whether a lock held for `held_micros` must now be yielded.
pub fn should_yield(held_micros: u64) -> (r: bool)
    ensures
        r == (held_micros > YIELD_BUDGET_MICROS),
{
    held_micros > YIELD_BUDGET_MICROS
}

/// What the stores hold for one block.
#[derive(PartialEq, Eq, Structural, Clone, Copy, Debug)]
pub struct BlockRecord {
    pub hash: BlockHash,
    pub has_header: bool,
    pub has_transactions: bool,
    pub has_utxo_diff: bool,
    pub has_utxo_multiset: bool,
    pub has_acceptance_data: bool,
    pub has_daa_excluded: bool,
    pub status: Option<BlockStatus>,
    pub has_relations: bool,
    pub has_ghostdag: bool,
    pub in_reachability: bool,
    pub in_window_caches: bool,
}

/// The record after `action` is carried out on it.
pub open spec fn after_action(rec: BlockRecord, action: BlockAction) -> BlockRecord {
    match action {
        BlockAction::SkipFuture => rec,
        BlockAction::KeepWhole => BlockRecord { in_window_caches: false, ..rec },
        BlockAction::KeepHeaderOnly => BlockRecord {
            has_transactions: false,
            has_utxo_diff: false,
            has_utxo_multiset: false,
            has_acceptance_data: false,
            has_daa_excluded: false,
            status: Some(BlockStatus::StatusHeaderOnly),
            in_window_caches: false,
            ..rec
        },
        BlockAction::Prune { keep_header } => BlockRecord {
            hash: rec.hash,
            has_header: rec.has_header && keep_header,
            has_transactions: false,
            has_utxo_diff: false,
            has_utxo_multiset: false,
            has_acceptance_data: false,
            has_daa_excluded: false,
            status: None,
            has_relations: false,
            has_ghostdag: false,
            in_reachability: false,
            in_window_caches: false,
        },
    }
}

/// Carries out `action` on the record of one block: the writes of one
/// per-block batch.
pub fn apply_action(rec: &mut BlockRecord, action: BlockAction)
    ensures
        *final(rec) == after_action(*old(rec), action),
{
    match action {
        BlockAction::SkipFuture => {},
        BlockAction::KeepWhole => {
            rec.in_window_caches = false;
        },
        BlockAction::KeepHeaderOnly => {
            rec.in_window_caches = false;
            rec.has_transactions = false;
            rec.has_utxo_diff = false;
            rec.has_utxo_multiset = false;
            rec.has_acceptance_data = false;
            rec.has_daa_excluded = false;
            rec.status = Some(BlockStatus::StatusHeaderOnly);
        },
        BlockAction::Prune { keep_header } => {
            rec.in_window_caches = false;
            rec.has_transactions = false;
            rec.has_utxo_diff = false;
            rec.has_utxo_multiset = false;
            rec.has_acceptance_data = false;
            rec.has_daa_excluded = false;
            rec.status = None;
            rec.has_relations = false;
            rec.has_ghostdag = false;
            rec.in_reachability = false;
            rec.has_header = rec.has_header && keep_header;
        },
    }
}

/// The bottom-up walk over the reachability tree: a FIFO queue of blocks
/// still to visit, and the counts of visited and fully pruned blocks.
pub struct Traversal {
    pub queue: Vec<BlockHash>,
    pub head: usize,
    pub traversed: u64,
    pub pruned: u64,
}

impl Traversal {
    /// The blocks still waiting in the queue, front first.
    pub open spec fn pending(&self) -> Seq<BlockHash> {
        self.queue@.subrange(self.head as int, self.queue@.len() as int)
    }

    pub open spec fn wf(&self) -> bool {
        self.head <= self.queue@.len()
    }

    /// Starts the walk at the reachability children of `ORIGIN`.
    pub fn new(origin_children: Vec<BlockHash>) -> (r: Self)
        ensures
            r.wf(),
            r.pending() == origin_children@,
            r.traversed == 0,
            r.pruned == 0,
    {
        let r = Traversal { queue: origin_children, head: 0, traversed: 0, pruned: 0 };
        assert(r.pending() == r.queue@);
        r
    }

    /// Takes the next block off the front of the queue.
    pub fn next(&mut self) -> (r: Option<BlockHash>)
        requires
            old(self).wf(),
        ensures
            final(self).wf(),
            final(self).traversed == old(self).traversed,
            final(self).pruned == old(self).pruned,
            old(self).pending().len() == 0 ==> r is None && final(self).pending() == old(self).pending(),
            old(self).pending().len() > 0 ==> r == Some(old(self).pending()[0]) && final(self).pending()
                == old(self).pending().drop_first(),
    {
        if self.head < self.queue.len() {
            let h = self.queue[self.head];
            self.head = self.head + 1;
            assert(self.pending() == old(self).pending().drop_first());
            Some(h)
        } else {
            None
        }
    }

    /// Visits `current`: decides its action and, unless it lies in the
    /// future of the new pruning point, enqueues its reachability children
    /// (read before it may be deleted) and counts it.
    pub fn visit(&mut self, current: BlockHash, in_future: bool, children: &Vec<BlockHash>, keep: &KeepSets) -> (r: BlockAction)
        requires
            old(self).wf(),
            old(self).traversed < u64::MAX,
            old(self).pruned < u64::MAX,
        ensures
            final(self).wf(),
            r == action_for(current, in_future, keep.blocks@, keep.relations@, keep.headers@),
            in_future ==> final(self).pending() == old(self).pending() && final(self).traversed == old(self).traversed,
            !in_future ==> final(self).pending() == old(self).pending() + children@ && final(self).traversed
                == old(self).traversed + 1,
            final(self).pruned == old(self).pruned + (if r is Prune { 1int } else { 0int }),
    {
        let action = classify_block(current, in_future, keep);
        if !in_future {
            extend_hashes(&mut self.queue, children);
            assert(self.pending() == old(self).pending() + children@) by {
                assert(self.pending() =~= old(self).pending() + children@);
            }
            self.traversed = self.traversed + 1;
        }
        if let BlockAction::Prune { .. } = action {
            self.pruned = self.pruned + 1;
        }
        action
    }
}

/// The record of `rec` after the traversal, given whether the new pruning
/// point is its ancestor.
pub open spec fn pruned_record(rec: BlockRecord, in_future: bool, keep: &KeepSets) -> BlockRecord {
    after_action(rec, action_for(rec.hash, in_future, keep.blocks@, keep.relations@, keep.headers@))
}

/// Prunes a set of block records, each with its flag telling whether the
/// new pruning point is its ancestor. Returns how many were fully pruned.
pub fn prune_records(records: &mut Vec<BlockRecord>, in_future: &Vec<bool>, keep: &KeepSets) -> (r: usize)
    requires
        old(records)@.len() == in_future@.len(),
    ensures
        final(records)@.len() == old(records)@.len(),
        forall|i: int| 0 <= i < old(records)@.len() ==> #[trigger] final(records)@[i] == pruned_record(
            old(records)@[i],
            in_future@[i],
            keep,
        ),
        r <= old(records)@.len(),
{
    let mut count: usize = 0;
    let mut i: usize = 0;
    while i < records.len()
        invariant
            records@.len() == old(records)@.len(),
            records@.len() == in_future@.len(),
            i <= records@.len(),
            count <= i,
            forall|j: int| 0 <= j < i ==> #[trigger] records@[j] == pruned_record(old(records)@[j], in_future@[j], keep),
            forall|j: int| i <= j < records@.len() ==> #[trigger] records@[j] == old(records)@[j],
        decreases records.len() - i,
    {
        let mut rec = records[i];
        let action = classify_block(rec.hash, in_future[i], keep);
        apply_action(&mut rec, action);
        if let BlockAction::Prune { .. } = action {
            count = count + 1;
        }
        records.set(i, rec);
        i += 1;
    }
    count
}

/// Blocks kept whole lose nothing but their window-cache entries: header,
/// body, UTXO data, status, relations, GHOSTDAG data and reachability stay.
pub proof fn lemma_kept_blocks_preserved(rec: BlockRecord, in_future: bool, keep: &KeepSets)
    requires
        keep.blocks@.contains(rec.hash),
    ensures
        pruned_record(rec, in_future, keep) == (BlockRecord {
            in_window_caches: if in_future { rec.in_window_caches } else { false },
            ..rec
        }),
{
}

/// A block whose relations are kept but which is not kept whole, and is not
/// in the future of the new pruning point, keeps header, relations, GHOSTDAG
/// data and reachability, loses body and UTXO data, and is header-only.
pub proof fn lemma_header_only_retention(rec: BlockRecord, in_future: bool, keep: &KeepSets)
    requires
        !in_future,
        keep.relations@.contains(rec.hash),
        !keep.blocks@.contains(rec.hash),
    ensures
        ({
            let after = pruned_record(rec, in_future, keep);
            &&& after.status == Some(BlockStatus::StatusHeaderOnly)
            &&& after.has_header == rec.has_header
            &&& after.has_relations == rec.has_relations
            &&& after.has_ghostdag == rec.has_ghostdag
            &&& after.in_reachability == rec.in_reachability
            &&& !after.has_transactions && !after.has_utxo_diff && !after.has_utxo_multiset
            &&& !after.has_acceptance_data && !after.has_daa_excluded
        }),
{
}

/// The header of a past pruning point survives pruning.
pub proof fn lemma_past_pruning_point_headers_kept(rec: BlockRecord, in_future: bool, keep: &KeepSets)
    requires
        keep.headers@.contains(rec.hash),
    ensures
        pruned_record(rec, in_future, keep).has_header == rec.has_header,
{
}

/// Nothing of a block in the future of the new pruning point changes.
pub proof fn lemma_future_untouched(rec: BlockRecord, keep: &KeepSets)
    ensures
        pruned_record(rec, true, keep) == rec,
{
}

/// A block outside the future of the new pruning point and outside every
/// keep set is gone from every store.
pub proof fn lemma_unkept_fully_pruned(rec: BlockRecord, keep: &KeepSets)
    requires
        !keep.blocks@.contains(rec.hash),
        !keep.relations@.contains(rec.hash),
        !keep.headers@.contains(rec.hash),
    ensures
        ({
            let after = pruned_record(rec, false, keep);
            &&& after.status is None
            &&& !after.has_header && !after.has_transactions && !after.has_utxo_diff
            &&& !after.has_utxo_multiset && !after.has_acceptance_data && !after.has_daa_excluded
            &&& !after.has_relations && !after.has_ghostdag && !after.in_reachability
            &&& !after.in_window_caches
        }),
{
}

} // verus!
