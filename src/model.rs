use vstd::prelude::*;

verus! {

/// A 32-byte block hash, held as four little-endian 64-bit words.
#[derive(PartialEq, Eq, Structural, Clone, Copy, Debug)]
pub struct BlockHash(pub u64, pub u64, pub u64, pub u64);

/// Each word of the sentinel hash `ORIGIN`: every byte is `0xfe`.
pub const ORIGIN_WORD: u64 = 0xfefe_fefe_fefe_fefe;

/// Sentinel hash: the universal ancestor, and the placeholder selected
/// parent of a block whose real selected parent was pruned.
pub open spec fn spec_origin() -> BlockHash {
    BlockHash(ORIGIN_WORD, ORIGIN_WORD, ORIGIN_WORD, ORIGIN_WORD)
}

/// The sentinel hash `ORIGIN`.
pub fn origin() -> (r: BlockHash)
    ensures
        r == spec_origin(),
{
    BlockHash(ORIGIN_WORD, ORIGIN_WORD, ORIGIN_WORD, ORIGIN_WORD)
}

/// The compact GHOSTDAG data of the sink, carried by a processing request.
pub struct CompactGhostdagData {
    pub blue_score: u64,
    pub blue_work: u128,
    pub selected_parent: BlockHash,
}

/// A message on the pruning processor's work channel.
pub enum PruningProcessingMessage {
    Exit,
    Process { sink_ghostdag_data: CompactGhostdagData },
}

/// Per-block validation status.
#[derive(PartialEq, Eq, Structural, Clone, Copy, Debug)]
pub enum BlockStatus {
    StatusInvalid,
    StatusUTXOValid,
    StatusUTXOPendingVerification,
    StatusDisqualifiedFromChain,
    StatusHeaderOnly,
}

/// A hash occurs in a concatenation exactly when it occurs in one of the parts.
pub proof fn lemma_concat_has(a: Seq<BlockHash>, b: Seq<BlockHash>, h: BlockHash)
    ensures
        (a + b).contains(h) <==> (a.contains(h) || b.contains(h)),
{
    if a.contains(h) {
        let i = choose|i: int| 0 <= i < a.len() && a[i] == h;
        assert((a + b)[i] == h);
    }
    if b.contains(h) {
        let i = choose|i: int| 0 <= i < b.len() && b[i] == h;
        assert((a + b)[a.len() + i] == h);
    }
    if (a + b).contains(h) {
        let i = choose|i: int| 0 <= i < (a + b).len() && (a + b)[i] == h;
        if i < a.len() {
            assert(a[i] == h);
        } else {
            assert(b[i - a.len()] == h);
        }
    }
}

/// Appends every hash of `s` to `r`, in order.
pub fn extend_hashes(r: &mut Vec<BlockHash>, s: &Vec<BlockHash>)
    ensures
        final(r)@ == old(r)@ + s@,
{
    let mut i: usize = 0;
    while i < s.len()
        invariant
            i <= s@.len(),
            r@ == old(r)@ + s@.subrange(0, i as int),
        decreases s.len() - i,
    {
        r.push(s[i]);
        i += 1;
        assert(s@.subrange(0, i as int) == s@.subrange(0, i - 1 as int).push(s@[i - 1]));
    }
    assert(s@.subrange(0, s@.len() as int) == s@);
}

/// Adds to `r` every hash of `s` that it does not hold yet, so that `r`
/// stays free of duplicates.
pub fn extend_unique(r: &mut Vec<BlockHash>, s: &Vec<BlockHash>)
    requires
        old(r)@.no_duplicates(),
    ensures
        final(r)@.no_duplicates(),
        forall|h: BlockHash| #[trigger] final(r)@.contains(h) <==> (old(r)@.contains(h) || s@.contains(h)),
{
    let mut i: usize = 0;
    while i < s.len()
        invariant
            i <= s@.len(),
            r@.no_duplicates(),
            forall|h: BlockHash| #[trigger] r@.contains(h) <==> (old(r)@.contains(h) || s@.subrange(0, i as int).contains(h)),
        decreases s.len() - i,
    {
        let h = s[i];
        let ghost before = r@;
        if !contains_hash(r, h) {
            r.push(h);
            assert forall|a: int, b: int| 0 <= a < r@.len() && 0 <= b < r@.len() && a != b implies r@[a] != r@[b] by {
                if a < before.len() && b < before.len() {
                } else if a < before.len() {
                    assert(before.contains(r@[a]));
                } else {
                    assert(before.contains(r@[b]));
                }
            }
        }
        proof {
            assert(r@ == before || r@ == before.push(h));
            assert(s@.subrange(0, i + 1 as int) == s@.subrange(0, i as int) + seq![h]);
            assert forall|x: BlockHash| r@.contains(x) <==> (old(r)@.contains(x) || s@.subrange(
                0,
                i + 1 as int,
            ).contains(x)) by {
                lemma_concat_has(s@.subrange(0, i as int), seq![h], x);
                if r@ != before {
                    lemma_concat_has(before, seq![h], x);
                    assert(before.push(h) == before + seq![h]);
                }
                if seq![h].contains(x) {
                    assert(x == h);
                }
                if x == h {
                    assert(seq![h][0] == x);
                }
            }
        }
        i += 1;
    }
    assert(s@.subrange(0, s@.len() as int) == s@);
}

/// Membership test on a vector of hashes.
pub fn contains_hash(v: &Vec<BlockHash>, h: BlockHash) -> (r: bool)
    ensures
        r == v@.contains(h),
{
    let mut i: usize = 0;
    while i < v.len()
        invariant
            i <= v.len(),
            forall|j: int| 0 <= j < i ==> v@[j] != h,
        decreases v.len() - i,
    {
        if v[i] == h {
            return true;
        }
        i += 1;
    }
    false
}

} // verus!
