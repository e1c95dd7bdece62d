use vstd::prelude::*;
use crate::model::BlockHash;

verus! {

/// The pruning-info singleton.
#[derive(PartialEq, Eq, Structural, Clone, Copy, Debug)]
pub struct PruningInfo {
    pub pruning_point: BlockHash,
    pub candidate: BlockHash,
    pub index: u64,
}

/// What a processing request did to the pruning state.
#[derive(PartialEq, Eq, Structural, Clone, Copy, Debug)]
pub enum Advancement {
    /// Neither the pruning point nor the candidate moved.
    Unchanged,
    /// Only the candidate moved; nothing is pruned.
    CandidateMoved,
    /// The pruning point moved; the caller rolls the UTXO set forward from
    /// `previous_pruning_point` and prunes below `new_pruning_point`.
    Advanced { previous_pruning_point: BlockHash, new_pruning_point: BlockHash },
}

/// The pruning info together with the append-only list of past pruning
/// points, indexed from genesis at zero.
pub struct PruningPointState {
    pub info: PruningInfo,
    pub past_pruning_points: Vec<BlockHash>,
}

/// The pruning info and past pruning points after the manager returns
/// `new_pruning_points` and `candidate`.
pub open spec fn advanced(
    info: PruningInfo,
    past: Seq<BlockHash>,
    new_pruning_points: Seq<BlockHash>,
    candidate: BlockHash,
) -> (PruningInfo, Seq<BlockHash>) {
    if new_pruning_points.len() > 0 {
        (
            PruningInfo {
                pruning_point: new_pruning_points.last(),
                candidate,
                index: (info.index + new_pruning_points.len()) as u64,
            },
            past + new_pruning_points,
        )
    } else {
        (PruningInfo { candidate, ..info }, past)
    }
}

/// Advancing never lowers the index, and raises it by the number of new
/// pruning points.
pub proof fn lemma_advance_index_monotone(
    info: PruningInfo,
    past: Seq<BlockHash>,
    new_pruning_points: Seq<BlockHash>,
    candidate: BlockHash,
)
    requires
        info.index + new_pruning_points.len() <= u64::MAX,
    ensures
        advanced(info, past, new_pruning_points, candidate).0.index >= info.index,
        advanced(info, past, new_pruning_points, candidate).0.index == info.index + new_pruning_points.len(),
{
}

/// After advancing, the past pruning points are defined on exactly
/// `0..=index`, start at genesis, end at the current pruning point, keep
/// every earlier entry, and hold the new pruning points in order at the
/// indices after the old one.
pub proof fn lemma_past_pruning_points_complete(
    info: PruningInfo,
    past: Seq<BlockHash>,
    new_pruning_points: Seq<BlockHash>,
    candidate: BlockHash,
    genesis: BlockHash,
)
    requires
        past.len() == info.index + 1,
        past[info.index as int] == info.pruning_point,
        past[0] == genesis,
        info.index + new_pruning_points.len() <= u64::MAX,
    ensures
        ({
            let (next, next_past) = advanced(info, past, new_pruning_points, candidate);
            &&& next_past.len() == next.index + 1
            &&& next_past[0] == genesis
            &&& next_past[next.index as int] == next.pruning_point
            &&& next_past.subrange(0, past.len() as int) == past
            &&& forall|i: int| 0 <= i < new_pruning_points.len() ==> next_past[info.index + 1 + i]
                == new_pruning_points[i]
        }),
{
    let (next, next_past) = advanced(info, past, new_pruning_points, candidate);
    assert(next_past.subrange(0, past.len() as int) =~= past);
}

impl PruningPointState {
    /// The past pruning points are defined exactly on `0..=index`, and the
    /// last of them is the current pruning point.
    pub open spec fn wf(&self) -> bool {
        &&& self.past_pruning_points@.len() == self.info.index + 1
        &&& self.past_pruning_points@[self.info.index as int] == self.info.pruning_point
    }

    /// The state of a fresh chain: genesis is the pruning point and candidate.
    pub fn new(genesis: BlockHash) -> (r: Self)
        ensures
            r.wf(),
            r.info == (PruningInfo { pruning_point: genesis, candidate: genesis, index: 0 }),
            r.past_pruning_points@ == seq![genesis],
    {
        PruningPointState {
            info: PruningInfo { pruning_point: genesis, candidate: genesis, index: 0 },
            past_pruning_points: vec![genesis],
        }
    }

    /// Applies the pruning-point manager's answer: the new pruning points in
    /// ascending order (possibly none) and the new candidate.
    pub fn advance(&mut self, new_pruning_points: &Vec<BlockHash>, new_candidate: BlockHash) -> (r: Advancement)
        requires
            old(self).wf(),
            old(self).info.index + new_pruning_points@.len() <= u64::MAX,
        ensures
            final(self).wf(),
            (final(self).info, final(self).past_pruning_points@) == advanced(
                old(self).info,
                old(self).past_pruning_points@,
                new_pruning_points@,
                new_candidate,
            ),
            new_pruning_points@.len() > 0 ==> {
                &&& r == (Advancement::Advanced {
                    previous_pruning_point: old(self).info.pruning_point,
                    new_pruning_point: new_pruning_points@.last(),
                })
                &&& final(self).info == (PruningInfo {
                    pruning_point: new_pruning_points@.last(),
                    candidate: new_candidate,
                    index: (old(self).info.index + new_pruning_points@.len()) as u64,
                })
                &&& final(self).past_pruning_points@ == old(self).past_pruning_points@ + new_pruning_points@
            },
            new_pruning_points@.len() == 0 && new_candidate != old(self).info.candidate ==> {
                &&& r == Advancement::CandidateMoved
                &&& final(self).info == (PruningInfo { candidate: new_candidate, ..old(self).info })
                &&& final(self).past_pruning_points@ == old(self).past_pruning_points@
            },
            new_pruning_points@.len() == 0 && new_candidate == old(self).info.candidate ==> {
                &&& r == Advancement::Unchanged
                &&& final(self).info == old(self).info
                &&& final(self).past_pruning_points@ == old(self).past_pruning_points@
            },
    {
        let n = new_pruning_points.len();
        if n > 0 {
            let previous = self.info.pruning_point;
            let mut i: usize = 0;
            while i < n
                invariant
                    n == new_pruning_points@.len(),
                    i <= n,
                    self.info == old(self).info,
                    self.past_pruning_points@ == old(self).past_pruning_points@ + new_pruning_points@.subrange(0, i as int),
                decreases n - i,
            {
                self.past_pruning_points.push(new_pruning_points[i]);
                i += 1;
                assert(new_pruning_points@.subrange(0, i as int)
                    == new_pruning_points@.subrange(0, i - 1 as int).push(new_pruning_points@[i - 1]));
            }
            assert(new_pruning_points@.subrange(0, n as int) == new_pruning_points@);
            let last = new_pruning_points[n - 1];
            self.info = PruningInfo { pruning_point: last, candidate: new_candidate, index: self.info.index + n as u64 };
            Advancement::Advanced { previous_pruning_point: previous, new_pruning_point: last }
        } else if new_candidate != self.info.candidate {
            self.info = PruningInfo { pruning_point: self.info.pruning_point, candidate: new_candidate, index: self.info.index };
            Advancement::CandidateMoved
        } else {
            Advancement::Unchanged
        }
    }

    /// The past pruning points strictly below the current index: the blocks
    /// whose headers are kept whatever else of them is pruned.
    pub fn past_pruning_points(&self) -> (r: Vec<BlockHash>)
        requires
            self.wf(),
        ensures
            r@ == self.past_pruning_points@.subrange(0, self.info.index as int),
    {
        let n: usize = self.past_pruning_points.len() - 1;
        let mut r: Vec<BlockHash> = Vec::new();
        let mut i: usize = 0;
        while i < n
            invariant
                n == self.info.index,
                n < self.past_pruning_points@.len(),
                i <= n,
                r@ == self.past_pruning_points@.subrange(0, i as int),
            decreases n - i,
        {
            r.push(self.past_pruning_points[i]);
            i += 1;
            assert(self.past_pruning_points@.subrange(0, i as int)
                == self.past_pruning_points@.subrange(0, i - 1 as int).push(self.past_pruning_points@[i - 1]));
        }
        r
    }
}

} // verus!
