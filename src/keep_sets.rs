use vstd::prelude::*;
use crate::model::{BlockHash, contains_hash, extend_unique};

verus! {

/// The pruning point's trusted data, by block hash: its anticone (the
/// pruning point first), the DAA window blocks and the GHOSTDAG blocks.
pub struct TrustedData {
    pub anticone: Vec<BlockHash>,
    pub daa_window_blocks: Vec<BlockHash>,
    pub ghostdag_blocks: Vec<BlockHash>,
}

/// A pruning-point proof by block hash: one list of headers per block level.
pub type PruningPointProof = Vec<Vec<BlockHash>>;

/// The three sets of blocks that survive pruning, each in its own form.
pub struct KeepSets {
    /// Kept whole: the pruning point and its anticone.
    pub blocks: Vec<BlockHash>,
    /// Kept with header, relations and GHOSTDAG data.
    pub relations: Vec<BlockHash>,
    /// Kept with their header at least: the past pruning points.
    pub headers: Vec<BlockHash>,
}

/// Why the proof and trusted data do not fit the new pruning point.
#[derive(PartialEq, Eq, Structural, Clone, Copy, Debug)]
pub enum KeepSetError {
    /// Level zero of the proof does not end at the new pruning point.
    ProofPruningPointMismatch,
    /// The trusted anticone does not start with the new pruning point.
    AnticonePruningPointMismatch,
    /// The deepest level of the proof does not end at genesis.
    ProofGenesisMismatch,
}

/// Whether level `level` of the proof ends with `h`.
pub open spec fn level_ends_with(proof: Seq<Vec<BlockHash>>, level: int, h: BlockHash) -> bool {
    &&& 0 <= level < proof.len()
    &&& proof[level]@.len() > 0
    &&& proof[level]@.last() == h
}

/// Whether `h` is a header of one of the first `n` levels of the proof.
pub open spec fn in_levels(proof: Seq<Vec<BlockHash>>, n: int, h: BlockHash) -> bool {
    exists|i: int| 0 <= i < n && #[trigger] proof[i]@.contains(h)
}

/// Whether `h` is a header of some level of the proof.
pub open spec fn in_proof(proof: Seq<Vec<BlockHash>>, h: BlockHash) -> bool {
    in_levels(proof, proof.len() as int, h)
}

proof fn lemma_in_levels_step(proof: Seq<Vec<BlockHash>>, n: int, h: BlockHash)
    requires
        0 <= n < proof.len(),
    ensures
        in_levels(proof, n + 1, h) <==> (in_levels(proof, n, h) || proof[n]@.contains(h)),
{
    if in_levels(proof, n + 1, h) {
        let i = choose|i: int| 0 <= i < n + 1 && #[trigger] proof[i]@.contains(h);
        if i < n {
            assert(in_levels(proof, n, h));
        }
    }
    if proof[n]@.contains(h) {
        assert(0 <= n < n + 1 && proof[n]@.contains(h));
    }
}

/// The blocks whose relations are kept: anticone, DAA window, GHOSTDAG
/// blocks and every header of the proof.
pub open spec fn keeps_relations(proof: Seq<Vec<BlockHash>>, data: &TrustedData, h: BlockHash) -> bool {
    data.anticone@.contains(h) || data.daa_window_blocks@.contains(h) || data.ghostdag_blocks@.contains(h)
        || in_proof(proof, h)
}

/// The outcome of building the keep sets: an error for the first check that
/// fails, else the three sets.
pub open spec fn keep_sets_built(
    new_pruning_point: BlockHash,
    genesis: BlockHash,
    proof: Seq<Vec<BlockHash>>,
    data: &TrustedData,
    past_pruning_points: Seq<BlockHash>,
    r: Result<KeepSets, KeepSetError>,
) -> bool {
    &&& (!level_ends_with(proof, 0, new_pruning_point) <==> r == Err::<KeepSets, KeepSetError>(
        KeepSetError::ProofPruningPointMismatch,
    ))
    &&& (level_ends_with(proof, 0, new_pruning_point) && !(data.anticone@.len() > 0
        && data.anticone@[0] == new_pruning_point) <==> r == Err::<KeepSets, KeepSetError>(
        KeepSetError::AnticonePruningPointMismatch,
    ))
    &&& (level_ends_with(proof, 0, new_pruning_point) && data.anticone@.len() > 0 && data.anticone@[0]
        == new_pruning_point && !level_ends_with(proof, proof.len() - 1, genesis) <==> r
        == Err::<KeepSets, KeepSetError>(KeepSetError::ProofGenesisMismatch))
    &&& (r is Ok ==> {
        let k = r->Ok_0;
        &&& k.blocks@ == data.anticone@
        &&& forall|h: BlockHash| k.relations@.contains(h) <==> keeps_relations(proof, data, h)
        &&& k.relations@.no_duplicates()
        &&& k.headers@ == past_pruning_points
    })
}

fn level_ends_with_hash(proof: &PruningPointProof, level: usize, h: BlockHash) -> (r: bool)
    requires
        level < proof@.len(),
    ensures
        r == level_ends_with(proof@, level as int, h),
{
    let n = proof[level].len();
    n > 0 && proof[level][n - 1] == h
}

/// Derives the keep sets for `new_pruning_point` from its proof and trusted
/// data, after checking that both belong to it and that the proof reaches
/// `genesis`. `past_pruning_points` are the pruning points below the current
/// index.
pub fn build_keep_sets(
    new_pruning_point: BlockHash,
    genesis: BlockHash,
    proof: &PruningPointProof,
    data: &TrustedData,
    past_pruning_points: Vec<BlockHash>,
) -> (r: Result<KeepSets, KeepSetError>)
    ensures
        keep_sets_built(new_pruning_point, genesis, proof@, data, past_pruning_points@, r),
{
    if proof.len() == 0 || !level_ends_with_hash(proof, 0, new_pruning_point) {
        return Err(KeepSetError::ProofPruningPointMismatch);
    }
    if data.anticone.len() == 0 || data.anticone[0] != new_pruning_point {
        return Err(KeepSetError::AnticonePruningPointMismatch);
    }
    if !level_ends_with_hash(proof, proof.len() - 1, genesis) {
        return Err(KeepSetError::ProofGenesisMismatch);
    }
    let blocks = data.anticone.clone();
    let mut relations: Vec<BlockHash> = Vec::new();
    extend_unique(&mut relations, &data.anticone);
    let ghost r1 = relations@;
    extend_unique(&mut relations, &data.daa_window_blocks);
    let ghost r2 = relations@;
    extend_unique(&mut relations, &data.ghostdag_blocks);
    assert forall|h: BlockHash| #[trigger] relations@.contains(h) <==> (data.anticone@.contains(h)
        || data.daa_window_blocks@.contains(h) || data.ghostdag_blocks@.contains(h)
        || in_levels(proof@, 0, h)) by {
        assert(r1.contains(h) <==> data.anticone@.contains(h));
        assert(r2.contains(h) <==> (r1.contains(h) || data.daa_window_blocks@.contains(h)));
    }
    let mut level: usize = 0;
    while level < proof.len()
        invariant
            level <= proof@.len(),
            relations@.no_duplicates(),
            forall|h: BlockHash| #[trigger] relations@.contains(h) <==> (data.anticone@.contains(h)
                || data.daa_window_blocks@.contains(h) || data.ghostdag_blocks@.contains(h)
                || in_levels(proof@, level as int, h)),
        decreases proof@.len() - level,
    {
        let ghost before = relations@;
        extend_unique(&mut relations, &proof[level]);
        assert forall|h: BlockHash| #[trigger] relations@.contains(h) <==> (data.anticone@.contains(h)
            || data.daa_window_blocks@.contains(h) || data.ghostdag_blocks@.contains(h)
            || in_levels(proof@, level + 1, h)) by {
            lemma_in_levels_step(proof@, level as int, h);
            assert(before.contains(h) <==> (data.anticone@.contains(h)
                || data.daa_window_blocks@.contains(h) || data.ghostdag_blocks@.contains(h)
                || in_levels(proof@, level as int, h)));
        }
        level += 1;
    }
    Ok(KeepSets { blocks, relations, headers: past_pruning_points })
}

impl KeepSets {
    /// Whether `h` is kept whole.
    pub fn keeps_block(&self, h: BlockHash) -> (r: bool)
        ensures
            r == self.blocks@.contains(h),
    {
        contains_hash(&self.blocks, h)
    }

    /// Whether the relations of `h` are kept.
    pub fn keeps_relations(&self, h: BlockHash) -> (r: bool)
        ensures
            r == self.relations@.contains(h),
    {
        contains_hash(&self.relations, h)
    }

    /// Whether the header of `h` is kept.
    pub fn keeps_header(&self, h: BlockHash) -> (r: bool)
        ensures
            r == self.headers@.contains(h),
    {
        contains_hash(&self.headers, h)
    }
}

} // verus!
