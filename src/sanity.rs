use vstd::prelude::*;
use crate::model::{BlockHash, contains_hash, extend_hashes};
use crate::keep_sets::{PruningPointProof, TrustedData};

verus! {

/// The headers of all levels of a proof, level after level.
pub open spec fn flatten_levels(p: Seq<Vec<BlockHash>>) -> Seq<BlockHash>
    decreases p.len(),
{
    if p.len() == 0 {
        Seq::empty()
    } else {
        flatten_levels(p.drop_last()) + p.last()@
    }
}

/// The hashes of a proof, flattened level after level.
pub fn flatten_proof(p: &PruningPointProof) -> (r: Vec<BlockHash>)
    ensures
        r@ == flatten_levels(p@),
{
    let mut r: Vec<BlockHash> = Vec::new();
    let mut i: usize = 0;
    while i < p.len()
        invariant
            i <= p@.len(),
            r@ == flatten_levels(p@.subrange(0, i as int)),
        decreases p.len() - i,
    {
        assert(p@.subrange(0, i + 1 as int).drop_last() == p@.subrange(0, i as int));
        extend_hashes(&mut r, &p[i]);
        i += 1;
    }
    assert(p@.subrange(0, p@.len() as int) == p@);
    r
}

/// How a rebuilt proof differs from the reference.
#[derive(PartialEq, Eq, Structural, Clone, Copy, Debug)]
pub enum ProofMismatch {
    /// The flattened proofs differ in length.
    Length { reference: usize, built: usize },
    /// The flattened proofs first differ at `index`.
    At { index: usize, reference: BlockHash, built: BlockHash },
}

/// Compares a proof rebuilt after pruning with the reference proof, header
/// by header over the flattened levels.
pub fn compare_proofs(reference: &PruningPointProof, built: &PruningPointProof) -> (r: Result<(), ProofMismatch>)
    ensures
        r is Ok <==> flatten_levels(reference@) == flatten_levels(built@),
        (flatten_levels(reference@).len() != flatten_levels(built@).len()) <==> (r matches Err(
            ProofMismatch::Length { .. },
        )),
        r matches Err(ProofMismatch::Length { reference: m, built: n }) ==> m == flatten_levels(reference@).len()
            && n == flatten_levels(built@).len(),
        r matches Err(ProofMismatch::At { index, reference: a, built: b }) ==> {
            let (x, y) = (flatten_levels(reference@), flatten_levels(built@));
            &&& x.len() == y.len()
            &&& index < x.len()
            &&& x[index as int] == a && y[index as int] == b && a != b
            &&& forall|j: int| 0 <= j < index ==> x[j] == y[j]
        },
{
    let a = flatten_proof(reference);
    let b = flatten_proof(built);
    if a.len() != b.len() {
        return Err(ProofMismatch::Length { reference: a.len(), built: b.len() });
    }
    let mut i: usize = 0;
    while i < a.len()
        invariant
            a@ == flatten_levels(reference@),
            b@ == flatten_levels(built@),
            a@.len() == b@.len(),
            i <= a@.len(),
            forall|j: int| 0 <= j < i ==> a@[j] == b@[j],
        decreases a.len() - i,
    {
        if a[i] != b[i] {
            assert(a@[i as int] != b@[i as int]);
            return Err(ProofMismatch::At { index: i, reference: a[i], built: b[i] });
        }
        i += 1;
    }
    assert(a@ =~= b@);
    Ok(())
}

/// Whether every element of `a` occurs in `b`.
fn all_in(a: &Vec<BlockHash>, b: &Vec<BlockHash>) -> (r: bool)
    ensures
        r == forall|h: BlockHash| a@.contains(h) ==> b@.contains(h),
{
    let mut i: usize = 0;
    while i < a.len()
        invariant
            i <= a@.len(),
            forall|j: int| 0 <= j < i ==> b@.contains(#[trigger] a@[j]),
        decreases a.len() - i,
    {
        if !contains_hash(b, a[i]) {
            assert(a@.contains(a@[i as int]));
            return false;
        }
        i += 1;
    }
    true
}

/// Whether two lists hold the same hashes, as sets.
pub fn same_hash_set(a: &Vec<BlockHash>, b: &Vec<BlockHash>) -> (r: bool)
    ensures
        r == (a@.to_set() == b@.to_set()),
{
    let r = all_in(a, b) && all_in(b, a);
    proof {
        if r {
            assert(a@.to_set() =~= b@.to_set());
        } else if a@.to_set() == b@.to_set() {
            assert forall|h: BlockHash| a@.contains(h) implies b@.contains(h) by {
                assert(a@.to_set().contains(h) == a@.contains(h));
            }
            assert forall|h: BlockHash| b@.contains(h) implies a@.contains(h) by {
                assert(b@.to_set().contains(h) == b@.contains(h));
            }
        }
    }
    r
}

/// Which part of rebuilt trusted data differs from the reference.
#[derive(PartialEq, Eq, Structural, Clone, Copy, Debug)]
pub enum TrustedDataMismatch {
    Anticone,
    DaaWindowBlocks,
    GhostdagBlocks,
}

/// Compares trusted data rebuilt after pruning with the reference, each
/// part as a set of hashes, in the order anticone, DAA window, GHOSTDAG.
pub fn compare_trusted_data(reference: &TrustedData, built: &TrustedData) -> (r: Result<(), TrustedDataMismatch>)
    ensures
        (reference.anticone@.to_set() != built.anticone@.to_set()) <==> r == Err::<(), TrustedDataMismatch>(
            TrustedDataMismatch::Anticone,
        ),
        (reference.anticone@.to_set() == built.anticone@.to_set() && reference.daa_window_blocks@.to_set()
            != built.daa_window_blocks@.to_set()) <==> r == Err::<(), TrustedDataMismatch>(
            TrustedDataMismatch::DaaWindowBlocks,
        ),
        (reference.anticone@.to_set() == built.anticone@.to_set() && reference.daa_window_blocks@.to_set()
            == built.daa_window_blocks@.to_set() && reference.ghostdag_blocks@.to_set()
            != built.ghostdag_blocks@.to_set()) <==> r == Err::<(), TrustedDataMismatch>(
            TrustedDataMismatch::GhostdagBlocks,
        ),
        r is Ok <==> (reference.anticone@.to_set() == built.anticone@.to_set() && reference.daa_window_blocks@.to_set()
            == built.daa_window_blocks@.to_set() && reference.ghostdag_blocks@.to_set()
            == built.ghostdag_blocks@.to_set()),
{
    if !same_hash_set(&reference.anticone, &built.anticone) {
        Err(TrustedDataMismatch::Anticone)
    } else if !same_hash_set(&reference.daa_window_blocks, &built.daa_window_blocks) {
        Err(TrustedDataMismatch::DaaWindowBlocks)
    } else if !same_hash_set(&reference.ghostdag_blocks, &built.ghostdag_blocks) {
        Err(TrustedDataMismatch::GhostdagBlocks)
    } else {
        Ok(())
    }
}

} // verus!
