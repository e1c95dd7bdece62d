use pruning_processor::ghostdag::{compact_ghostdag, compact_kept_records, GhostdagData};
use pruning_processor::keep_sets::{build_keep_sets, KeepSetError, KeepSets, TrustedData};
use pruning_processor::model::{contains_hash, origin, BlockHash, BlockStatus, CompactGhostdagData, PruningProcessingMessage};
use pruning_processor::processor::{PruningConfig, PruningPlan, PruningProcessor};
use pruning_processor::pruning_info::{Advancement, PruningInfo, PruningPointState};
use pruning_processor::sanity::{compare_proofs, compare_trusted_data, flatten_proof, same_hash_set, ProofMismatch, TrustedDataMismatch};
use pruning_processor::tips::split_tips;
use pruning_processor::traversal::{
    apply_action, classify_block, prune_records, should_yield, BlockAction, BlockRecord, Traversal,
};

use pruning_processor::utxo::{roll_forward, write_diff, UtxoDiff};
use std::collections::HashMap;

const GENESIS: BlockHash = BlockHash(1, 0, 0, 0);

/// A block hash whose lowest word is `n`.
fn bh(n: u64) -> BlockHash {
    BlockHash(n, 0, 0, 0)
}

/// Block hashes whose lowest words are `ns`.
fn hs(ns: &[u64]) -> Vec<BlockHash> {
    ns.iter().map(|&n| bh(n)).collect()
}

fn config(is_archival: bool, enable_sanity_checks: bool) -> PruningConfig {
    PruningConfig { is_archival, enable_sanity_checks, genesis_hash: GENESIS }
}

fn full_record(hash: BlockHash) -> BlockRecord {
    BlockRecord {
        hash,
        has_header: true,
        has_transactions: true,
        has_utxo_diff: true,
        has_utxo_multiset: true,
        has_acceptance_data: true,
        has_daa_excluded: true,
        status: Some(BlockStatus::StatusUTXOValid),
        has_relations: true,
        has_ghostdag: true,
        in_reachability: true,
        in_window_caches: true,
    }
}

fn keep(blocks: Vec<BlockHash>, relations: Vec<BlockHash>, headers: Vec<BlockHash>) -> KeepSets {
    KeepSets { blocks, relations, headers }
}

#[test]
fn no_op_leaves_state_unchanged() {
    let mut p = PruningProcessor::new(config(false, true));
    let plan = p.advance_pruning_point_and_candidate_if_possible(&vec![], GENESIS);
    assert_eq!(plan, PruningPlan::Done);
    assert_eq!(p.state.info, PruningInfo { pruning_point: GENESIS, candidate: GENESIS, index: 0 });
    assert_eq!(p.state.past_pruning_points, hs(&[1]));
}

#[test]
fn candidate_only_move() {
    let mut s = PruningPointState::new(GENESIS);
    let r = s.advance(&vec![], bh(7));
    assert_eq!(r, Advancement::CandidateMoved);
    assert_eq!(s.info, PruningInfo { pruning_point: GENESIS, candidate: bh(7), index: 0 });
    assert_eq!(s.past_pruning_points, hs(&[1]));
    let mut p = PruningProcessor::new(config(false, false));
    assert_eq!(p.advance_pruning_point_and_candidate_if_possible(&vec![], bh(7)), PruningPlan::Done);
    assert_eq!(p.state.info.candidate, bh(7));
}

#[test]
fn single_advancement_archival_skips_pruning() {
    let mut p = PruningProcessor::new(config(true, false));
    let plan = p.advance_pruning_point_and_candidate_if_possible(&hs(&[10]), bh(12));
    assert_eq!(plan, PruningPlan::RollForward { from: GENESIS, to: bh(10), check_commitment: false, prune: false });
    assert_eq!(p.state.info, PruningInfo { pruning_point: bh(10), candidate: bh(12), index: 1 });
    assert_eq!(p.state.past_pruning_points, hs(&[1, 10]));
}

#[test]
fn multi_advancement_appends_in_order() {
    let mut p = PruningProcessor::new(config(false, true));
    let plan = p.advance_pruning_point_and_candidate_if_possible(&hs(&[21, 22, 23]), bh(30));
    assert_eq!(plan, PruningPlan::RollForward { from: GENESIS, to: bh(23), check_commitment: true, prune: true });
    assert_eq!(p.state.info, PruningInfo { pruning_point: bh(23), candidate: bh(30), index: 3 });
    assert_eq!(p.state.past_pruning_points, hs(&[1, 21, 22, 23]));
    assert_eq!(p.state.past_pruning_points(), hs(&[1, 21, 22]));
}

#[test]
fn advancement_is_recorded_before_the_commitment_check() {
    // The plan asks for the commitment check only after the new pruning info
    // is in place, so a failed check leaves the advanced info behind.
    let mut p = PruningProcessor::new(config(false, true));
    let plan = p.advance_pruning_point_and_candidate_if_possible(&hs(&[5]), bh(6));
    assert!(matches!(plan, PruningPlan::RollForward { check_commitment: true, .. }));
    assert_eq!(p.state.info.pruning_point, bh(5));
    assert_eq!(p.state.info.index, 1);
}

#[test]
fn successive_advancements_keep_index_monotone() {
    let mut s = PruningPointState::new(GENESIS);
    s.advance(&hs(&[3]), bh(4));
    let first = s.info.index;
    s.advance(&vec![], bh(9));
    assert!(s.info.index >= first);
    s.advance(&hs(&[4, 5]), bh(9));
    assert_eq!(s.info.index, 3);
    assert_eq!(s.past_pruning_points[0], GENESIS);
    assert_eq!(s.past_pruning_points[s.info.index as usize], s.info.pruning_point);
}

#[test]
fn worker_messages() {
    let d = CompactGhostdagData { blue_score: 5, blue_work: 9, selected_parent: bh(3) };
    let r = PruningProcessor::next_work(PruningProcessingMessage::Process { sink_ghostdag_data: d });
    let got = r.unwrap();
    assert_eq!((got.blue_score, got.blue_work, got.selected_parent), (5, 9, bh(3)));
    assert!(PruningProcessor::next_work(PruningProcessingMessage::Exit).is_none());
}

fn toy_proof() -> Vec<Vec<BlockHash>> {
    vec![hs(&[5, 10, 15]), hs(&[1, 12, 15]), hs(&[1])]
}

fn toy_data() -> TrustedData {
    TrustedData { anticone: hs(&[15]), daa_window_blocks: hs(&[13, 14]), ghostdag_blocks: hs(&[11]) }
}

#[test]
fn keep_sets_from_proof_and_trusted_data() {
    let k = build_keep_sets(bh(15), GENESIS, &toy_proof(), &toy_data(), hs(&[1])).unwrap();
    assert_eq!(k.blocks, hs(&[15]));
    assert_eq!(k.headers, hs(&[1]));
    for h in hs(&[15, 13, 14, 11, 5, 10, 12, 1]) {
        assert!(k.keeps_relations(h), "{:?}", h);
    }
    for h in hs(&[2, 3, 4, 6, 16]) {
        assert!(!k.keeps_relations(h), "{:?}", h);
    }
}

#[test]
fn keep_sets_errors() {
    let d = toy_data();
    assert_eq!(
        build_keep_sets(bh(14), GENESIS, &toy_proof(), &d, vec![]).err(),
        Some(KeepSetError::ProofPruningPointMismatch)
    );
    assert_eq!(build_keep_sets(bh(15), GENESIS, &vec![], &d, vec![]).err(), Some(KeepSetError::ProofPruningPointMismatch));
    let bad_anticone = TrustedData { anticone: hs(&[16, 15]), ..toy_data() };
    assert_eq!(
        build_keep_sets(bh(15), GENESIS, &toy_proof(), &bad_anticone, vec![]).err(),
        Some(KeepSetError::AnticonePruningPointMismatch)
    );
    let empty_anticone = TrustedData { anticone: vec![], ..toy_data() };
    assert_eq!(
        build_keep_sets(bh(15), GENESIS, &toy_proof(), &empty_anticone, vec![]).err(),
        Some(KeepSetError::AnticonePruningPointMismatch)
    );
    assert_eq!(build_keep_sets(bh(15), bh(2), &toy_proof(), &d, vec![]).err(), Some(KeepSetError::ProofGenesisMismatch));
}

#[test]
fn processor_keep_sets_use_past_pruning_points() {
    let mut p = PruningProcessor::new(config(false, false));
    p.advance_pruning_point_and_candidate_if_possible(&hs(&[15]), bh(16));
    let k = p.keep_sets(bh(15), &toy_proof(), &toy_data()).unwrap();
    assert_eq!(k.headers, hs(&[1]));
}

#[test]
fn ghostdag_compaction() {
    let gd = GhostdagData {
        blue_score: 40,
        blue_work: 400,
        selected_parent: bh(3),
        mergeset_blues: hs(&[3, 4, 5]),
        mergeset_reds: hs(&[6, 7]),
        blues_anticone_sizes: vec![(bh(3), 0), (bh(4), 1), (bh(5), 2)],
    };
    let kept = hs(&[4, 7, 9]);
    let c = compact_ghostdag(&gd, &kept).unwrap();
    assert_eq!(c.selected_parent, origin());
    assert_eq!(c.mergeset_blues, hs(&[4]));
    assert_eq!(c.mergeset_reds, hs(&[7]));
    assert_eq!(c.blues_anticone_sizes, vec![(bh(4), 1)]);
    assert_eq!((c.blue_score, c.blue_work), (40, 400));

    let kept_parent = hs(&[3, 4, 7]);
    let c = compact_ghostdag(&gd, &kept_parent).unwrap();
    assert_eq!(c.selected_parent, bh(3));
    assert_eq!(c.mergeset_blues, hs(&[3, 4]));

    let all = hs(&[3, 4, 5, 6, 7]);
    assert!(compact_ghostdag(&gd, &all).is_none());
}

#[test]
fn tips_outside_future_are_pruned() {
    let (kept, pruned) = split_tips(&hs(&[8, 9, 20, 21]), &vec![false, false, true, true]);
    assert_eq!(kept, hs(&[20, 21]));
    assert_eq!(pruned, hs(&[8, 9]));
    let (kept, pruned) = split_tips(&vec![], &vec![]);
    assert!(kept.is_empty() && pruned.is_empty());
}

#[test]
fn block_classification() {
    let k = keep(hs(&[15]), hs(&[15, 10]), hs(&[1]));
    assert_eq!(classify_block(bh(16), true, &k), BlockAction::SkipFuture);
    assert_eq!(classify_block(bh(15), false, &k), BlockAction::KeepWhole);
    assert_eq!(classify_block(bh(10), false, &k), BlockAction::KeepHeaderOnly);
    assert_eq!(classify_block(GENESIS, false, &k), BlockAction::Prune { keep_header: true });
    assert_eq!(classify_block(bh(4), false, &k), BlockAction::Prune { keep_header: false });
}

#[test]
fn apply_actions_to_records() {
    let mut r = full_record(bh(4));
    apply_action(&mut r, BlockAction::KeepHeaderOnly);
    assert_eq!(r.status, Some(BlockStatus::StatusHeaderOnly));
    assert!(r.has_header && r.has_relations && r.has_ghostdag && !r.has_transactions && !r.has_utxo_diff);
    let mut r = full_record(bh(4));
    apply_action(&mut r, BlockAction::Prune { keep_header: true });
    assert!(r.has_header && r.status.is_none() && !r.has_relations && !r.in_reachability);
    let mut r = full_record(bh(4));
    apply_action(&mut r, BlockAction::SkipFuture);
    assert_eq!(r, full_record(bh(4)));
}

#[test]
fn yield_after_budget() {
    assert!(!should_yield(0));
    assert!(!should_yield(5000));
    assert!(should_yield(5001));
}

#[test]
fn traversal_queue_and_counters() {
    let k = keep(hs(&[15]), hs(&[15, 10]), vec![]);
    let mut t = Traversal::new(hs(&[2, 3]));
    assert_eq!(t.next(), Some(bh(2)));
    assert_eq!(t.visit(bh(2), false, &hs(&[4, 5]), &k), BlockAction::Prune { keep_header: false });
    assert_eq!(t.next(), Some(bh(3)));
    assert_eq!(t.visit(bh(3), true, &hs(&[6]), &k), BlockAction::SkipFuture);
    assert_eq!(t.next(), Some(bh(4)));
    assert_eq!(t.visit(bh(4), false, &vec![], &k), BlockAction::Prune { keep_header: false });
    assert_eq!(t.next(), Some(bh(5)));
    assert_eq!(t.next(), None);
    assert_eq!((t.traversed, t.pruned), (2, 2));
}

#[test]
fn full_prune_of_toy_dag() {
    // Twenty blocks 1..=20, genesis 1; blocks 15..=20 lie in the future of
    // the new pruning point 15.
    let k = build_keep_sets(bh(15), GENESIS, &toy_proof(), &toy_data(), hs(&[1])).unwrap();
    let mut records: Vec<BlockRecord> = (1..=20).map(|n| full_record(bh(n))).collect();
    let in_future: Vec<bool> = (1..=20).map(|h| h >= 15).collect();
    let pruned = prune_records(&mut records, &in_future, &k);
    // 2, 3, 4, 6, 7, 8, 9 are fully pruned, and genesis keeps only its header.
    assert_eq!(pruned, 7);
    for r in &records {
        let h = r.hash;
        if h.0 >= 15 {
            assert_eq!(*r, full_record(h));
        } else if hs(&[5, 10, 11, 12, 13, 14, 1]).contains(&h) {
            assert_eq!(r.status, Some(BlockStatus::StatusHeaderOnly), "{:?}", h);
            assert!(r.has_header && r.has_relations && r.has_ghostdag && r.in_reachability);
            assert!(!r.has_transactions && !r.has_utxo_diff && !r.has_acceptance_data);
        } else {
            assert!(r.status.is_none() && !r.has_header && !r.has_relations && !r.in_reachability, "{:?}", h);
        }
    }
}

#[test]
fn past_pruning_point_header_kept_when_relations_pruned() {
    let k = keep(hs(&[15]), hs(&[15]), hs(&[9]));
    let mut records = vec![full_record(bh(9))];
    prune_records(&mut records, &vec![false], &k);
    assert!(records[0].has_header);
    assert!(records[0].status.is_none() && !records[0].has_relations);
}

#[test]
fn proof_comparison() {
    let a = vec![hs(&[1, 2]), hs(&[3])];
    assert_eq!(flatten_proof(&a), hs(&[1, 2, 3]));
    assert_eq!(compare_proofs(&a, &vec![hs(&[1]), hs(&[2, 3])]), Ok(()));
    assert_eq!(compare_proofs(&a, &vec![hs(&[1, 2])]), Err(ProofMismatch::Length { reference: 3, built: 2 }));
    assert_eq!(
        compare_proofs(&a, &vec![hs(&[1, 4]), hs(&[3])]),
        Err(ProofMismatch::At { index: 1, reference: bh(2), built: bh(4) })
    );
}

#[test]
fn trusted_data_comparison() {
    let a = toy_data();
    let same = TrustedData { anticone: hs(&[15, 15]), daa_window_blocks: hs(&[14, 13]), ghostdag_blocks: hs(&[11]) };
    assert_eq!(compare_trusted_data(&a, &same), Ok(()));
    let b = TrustedData { anticone: hs(&[16]), ..toy_data() };
    assert_eq!(compare_trusted_data(&a, &b), Err(TrustedDataMismatch::Anticone));
    let b = TrustedData { daa_window_blocks: hs(&[13]), ..toy_data() };
    assert_eq!(compare_trusted_data(&a, &b), Err(TrustedDataMismatch::DaaWindowBlocks));
    let b = TrustedData { ghostdag_blocks: vec![], ..toy_data() };
    assert_eq!(compare_trusted_data(&a, &b), Err(TrustedDataMismatch::GhostdagBlocks));
    assert!(same_hash_set(&hs(&[1, 2, 2]), &hs(&[2, 1])));
    assert!(!same_hash_set(&hs(&[1]), &vec![]));
    assert!(contains_hash(&hs(&[1, 2]), bh(2)));
}

#[test]
fn utxo_roll_forward() {
    let mut set: HashMap<u64, u64> = HashMap::new();
    set.insert(1, 10);
    set.insert(2, 20);
    let d1 = UtxoDiff { removed: vec![(1, 10)], added: vec![(3, 30)] };
    let d2 = UtxoDiff { removed: vec![(3, 30), (2, 20)], added: vec![(4, 40), (2, 21)] };
    let mut staged = set.clone();
    write_diff(&mut staged, &d1);
    assert_eq!(staged, HashMap::from([(2, 20), (3, 30)]));
    write_diff(&mut staged, &d2);
    let mut at_once = set.clone();
    roll_forward(&mut at_once, &vec![UtxoDiff { removed: vec![(1, 10)], added: vec![(3, 30)] }, d2]);
    assert_eq!(at_once, HashMap::from([(2, 21), (4, 40)]));
    assert_eq!(staged, at_once);
    let mut unchanged = set.clone();
    roll_forward(&mut unchanged, &vec![]);
    assert_eq!(unchanged, set);
}

#[test]
fn compaction_of_kept_records() {
    let gd = |sp: u64, blues: Vec<BlockHash>| GhostdagData {
        blue_score: 1,
        blue_work: 1,
        selected_parent: bh(sp),
        mergeset_blues: blues,
        mergeset_reds: vec![],
        blues_anticone_sizes: vec![],
    };
    let records = vec![(bh(10), gd(5, hs(&[5, 9]))), (bh(11), gd(10, hs(&[10])))];
    let r = compact_kept_records(&records, &hs(&[10, 11]));
    assert_eq!(r.len(), 2);
    let first = r[0].as_ref().unwrap();
    assert_eq!(first.selected_parent, origin());
    assert!(first.mergeset_blues.is_empty());
    assert!(r[1].is_none());
}

#[test]
fn hashes_differ_in_every_word() {
    let k = keep(vec![BlockHash(15, 0, 0, 0)], vec![], vec![]);
    assert_eq!(classify_block(BlockHash(15, 0, 0, 0), false, &k), BlockAction::KeepWhole);
    assert_eq!(classify_block(BlockHash(15, 0, 0, 1), false, &k), BlockAction::Prune { keep_header: false });
    assert_eq!(origin(), BlockHash(0xfefe_fefe_fefe_fefe, 0xfefe_fefe_fefe_fefe, 0xfefe_fefe_fefe_fefe, 0xfefe_fefe_fefe_fefe));
}

#[test]
fn kept_relations_hold_no_duplicates() {
    let data = TrustedData { anticone: hs(&[15, 15]), daa_window_blocks: hs(&[13, 15]), ghostdag_blocks: hs(&[13]) };
    let k = build_keep_sets(bh(15), GENESIS, &toy_proof(), &data, vec![]).unwrap();
    let mut sorted: Vec<u64> = k.relations.iter().map(|h| h.0).collect();
    sorted.sort();
    assert_eq!(sorted, vec![1, 5, 10, 12, 13, 15]);
}
