use vstd::prelude::*;
use crate::model::{BlockHash, CompactGhostdagData, PruningProcessingMessage};
use crate::pruning_info::{Advancement, PruningPointState};
use crate::keep_sets::{KeepSetError, KeepSets, PruningPointProof, TrustedData, build_keep_sets, keep_sets_built};

verus! {

/// The configuration the pruning processor reads.
#[derive(PartialEq, Eq, Structural, Clone, Copy, Debug)]
pub struct PruningConfig {
    /// Advance the pruning point but never delete data.
    pub is_archival: bool,
    /// Check the UTXO commitment and rebuild proof and trusted data.
    pub enable_sanity_checks: bool,
    pub genesis_hash: BlockHash,
}

/// The work that follows a processing request.
#[derive(PartialEq, Eq, Structural, Clone, Copy, Debug)]
pub enum PruningPlan {
    /// Nothing more to do.
    Done,
    /// The pruning point moved from `from` to `to`: roll the pruning-point
    /// UTXO set forward along the selected chain, check its commitment when
    /// `check_commitment`, and prune below `to` when `prune`.
    RollForward { from: BlockHash, to: BlockHash, check_commitment: bool, prune: bool },
}

/// The pruning processor's own state: its configuration and the pruning
/// point bookkeeping it alone writes.
pub struct PruningProcessor {
    pub config: PruningConfig,
    pub state: PruningPointState,
}

impl PruningProcessor {
    pub open spec fn wf(&self) -> bool {
        &&& self.state.wf()
        &&& self.state.past_pruning_points@[0] == self.config.genesis_hash
    }

    /// A processor on a fresh chain, whose only pruning point is genesis.
    pub fn new(config: PruningConfig) -> (r: Self)
        ensures
            r.wf(),
            r.config == config,
            r.state.info.pruning_point == config.genesis_hash,
            r.state.info.candidate == config.genesis_hash,
            r.state.info.index == 0,
            r.state.past_pruning_points@ == seq![config.genesis_hash],
    {
        PruningProcessor { config, state: PruningPointState::new(config.genesis_hash) }
    }

    /// What the worker does with a message: `None` stops it, `Some` hands
    /// the sink's GHOSTDAG data to the pruning-point manager.
    pub fn next_work(msg: PruningProcessingMessage) -> (r: Option<CompactGhostdagData>)
        ensures
            msg is Exit <==> r is None,
            msg matches PruningProcessingMessage::Process { sink_ghostdag_data: d } ==> r == Some(d),
    {
        match msg {
            PruningProcessingMessage::Exit => None,
            PruningProcessingMessage::Process { sink_ghostdag_data } => Some(sink_ghostdag_data),
        }
    }

    /// Records the pruning-point manager's answer for the sink's GHOSTDAG
    /// data and says what work follows.
    ///
    /// The new pruning info and past pruning points are in place before the
    /// plan is returned: when the UTXO commitment check that the plan asks for
    /// then fails, the pruning state has already advanced and nothing is
    /// pruned.
    pub fn advance_pruning_point_and_candidate_if_possible(
        &mut self,
        new_pruning_points: &Vec<BlockHash>,
        new_candidate: BlockHash,
    ) -> (r: PruningPlan)
        requires
            old(self).wf(),
            old(self).state.info.index + new_pruning_points@.len() <= u64::MAX,
        ensures
            final(self).wf(),
            final(self).config == old(self).config,
            new_pruning_points@.len() > 0 ==> {
                &&& r == (PruningPlan::RollForward {
                    from: old(self).state.info.pruning_point,
                    to: new_pruning_points@.last(),
                    check_commitment: old(self).config.enable_sanity_checks,
                    prune: !old(self).config.is_archival,
                })
                &&& final(self).state.info.pruning_point == new_pruning_points@.last()
                &&& final(self).state.info.candidate == new_candidate
                &&& final(self).state.info.index == old(self).state.info.index + new_pruning_points@.len()
                &&& final(self).state.past_pruning_points@ == old(self).state.past_pruning_points@
                    + new_pruning_points@
            },
            new_pruning_points@.len() == 0 ==> {
                &&& r == PruningPlan::Done
                &&& final(self).state.info.pruning_point == old(self).state.info.pruning_point
                &&& final(self).state.info.candidate == new_candidate
                &&& final(self).state.info.index == old(self).state.info.index
                &&& final(self).state.past_pruning_points@ == old(self).state.past_pruning_points@
            },
    {
        let ghost before = self.state.past_pruning_points@;
        let advancement = self.state.advance(new_pruning_points, new_candidate);
        assert(self.state.past_pruning_points@[0] == before[0]);
        match advancement {
            Advancement::Advanced { previous_pruning_point, new_pruning_point } => PruningPlan::RollForward {
                from: previous_pruning_point,
                to: new_pruning_point,
                check_commitment: self.config.enable_sanity_checks,
                prune: !self.config.is_archival,
            },
            _ => PruningPlan::Done,
        }
    }

    /// The keep sets for pruning below `new_pruning_point`, derived from its
    /// proof and trusted data, with the past pruning points below the current
    /// index as the kept headers.
    pub fn keep_sets(&self, new_pruning_point: BlockHash, proof: &PruningPointProof, data: &TrustedData) -> (r: Result<
        KeepSets,
        KeepSetError,
    >)
        requires
            self.wf(),
        ensures
            keep_sets_built(
                new_pruning_point,
                self.config.genesis_hash,
                proof@,
                data,
                self.state.past_pruning_points@.subrange(0, self.state.info.index as int),
                r,
            ),
    {
        let genesis = self.state.past_pruning_points[0];
        build_keep_sets(new_pruning_point, genesis, proof, data, self.state.past_pruning_points())
    }
}

} // verus!
