//! Cross-checking a historical list of receipts against a replayed
//! execution trace.
//!
//! Receipts are compared by their hashes alone, which are unique. The
//! check finds every hash in the historical list that the replayed trace
//! did not produce; the list is verified exactly when none is missing.

use vstd::prelude::*;

verus! {

/// A 256-bit receipt hash, as four 64-bit words in order.
#[derive(Clone, Copy, Debug, PartialEq, Eq, Structural)]
pub struct ReceiptHash {
    pub w0: u64,
    pub w1: u64,
    pub w2: u64,
    pub w3: u64,
}

/// The subsequence of `repo` whose hashes `trace` lacks, in order.
pub open spec fn unverified_hashes(repo: Seq<ReceiptHash>, trace: Seq<ReceiptHash>) -> Seq<
    ReceiptHash,
>
    decreases repo.len(),
{
    if repo.len() == 0 {
        Seq::empty()
    } else {
        unverified_hashes(repo.drop_last(), trace) + if trace.contains(repo.last()) {
            Seq::empty()
        } else {
            seq![repo.last()]
        }
    }
}

/// Returns whether `v` lists `h`.
fn contains_hash(v: &Vec<ReceiptHash>, h: ReceiptHash) -> (r: bool)
    ensures
        r == v@.contains(h),
{
    let mut i: usize = 0;
    while i < v.len()
        invariant
            0 <= i <= v@.len(),
            forall|j: int| 0 <= j < i ==> v@[j] != h,
        decreases v@.len() - i,
    {
        if v[i] == h {
            proof {
                assert(v@.contains(h)) by {
                    assert(v@[i as int] == h);
                }
            }
            return true;
        }
        i = i + 1;
    }
    proof {
        assert(!v@.contains(h));
    }
    false
}

/// Collects, in order, every hash of `repo` that `trace` does not hold.
pub fn missing_from_trace(repo: &Vec<ReceiptHash>, trace: &Vec<ReceiptHash>) -> (r: Vec<
    ReceiptHash,
>)
    ensures
        r@ == unverified_hashes(repo@, trace@),
{
    let mut r: Vec<ReceiptHash> = Vec::new();
    let mut i: usize = 0;
    proof {
        assert(repo@.take(0) =~= Seq::<ReceiptHash>::empty());
    }
    while i < repo.len()
        invariant
            0 <= i <= repo@.len(),
            r@ == unverified_hashes(repo@.take(i as int), trace@),
        decreases repo@.len() - i,
    {
        proof {
            assert(repo@.take(i as int + 1).drop_last() =~= repo@.take(i as int));
            assert(repo@.take(i as int + 1).last() == repo@[i as int]);
        }
        if !contains_hash(trace, repo[i]) {
            r.push(repo[i]);
            proof {
                assert(r@ =~= unverified_hashes(repo@.take(i as int + 1), trace@));
            }
        } else {
            proof {
                assert(r@ =~= unverified_hashes(repo@.take(i as int + 1), trace@));
            }
        }
        i = i + 1;
    }
    proof {
        assert(repo@.take(repo@.len() as int) =~= repo@);
    }
    r
}

/// A hash is reported missing exactly when the historical list holds it
/// and the replayed trace does not.
pub proof fn lemma_missing_characterization(
    repo: Seq<ReceiptHash>,
    trace: Seq<ReceiptHash>,
    h: ReceiptHash,
)
    ensures
        unverified_hashes(repo, trace).contains(h) <==> repo.contains(h) && !trace.contains(h),
    decreases repo.len(),
{
    if repo.len() == 0 {
    } else {
        lemma_missing_characterization(repo.drop_last(), trace, h);
        let prefix = unverified_hashes(repo.drop_last(), trace);
        let whole = unverified_hashes(repo, trace);
        if whole.contains(h) {
            if !prefix.contains(h) {
                assert(h == repo.last());
                assert(repo.contains(h)) by {
                    assert(repo[repo.len() - 1] == h);
                }
            } else {
                assert(repo.drop_last().contains(h));
                let j = choose|j: int|
                    0 <= j < repo.drop_last().len() && repo.drop_last()[j] == h;
                assert(repo.contains(h)) by {
                    assert(repo[j] == h);
                }
            }
        }
        if repo.contains(h) && !trace.contains(h) {
            let j = choose|j: int| 0 <= j < repo.len() && repo[j] == h;
            if j < repo.len() - 1 {
                assert(repo.drop_last().contains(h)) by {
                    assert(repo.drop_last()[j] == h);
                }
                let k = choose|k: int| 0 <= k < prefix.len() && prefix[k] == h;
                assert(whole.contains(h)) by {
                    assert(whole[k] == h);
                }
            } else {
                assert(repo.last() == h);
                assert(whole.contains(h)) by {
                    assert(whole[whole.len() - 1] == h);
                }
            }
        }
        if prefix.contains(h) {
            let k = choose|k: int| 0 <= k < prefix.len() && prefix[k] == h;
            assert(whole.contains(h)) by {
                assert(whole[k] == h);
            }
        }
    }
}

/// Checks a historical receipt list against a replayed trace: succeeds
/// exactly when every historical hash appears in the trace, and
/// otherwise reports the missing hashes, in order.
pub fn verify_restored_receipts(repo: &Vec<ReceiptHash>, trace: &Vec<ReceiptHash>) -> (r: Result<
    (),
    Vec<ReceiptHash>,
>)
    ensures
        r is Ok <==> unverified_hashes(repo@, trace@).len() == 0,
        r matches Err(missing) ==> missing@ == unverified_hashes(repo@, trace@),
{
    let missing = missing_from_trace(repo, trace);
    if missing.len() == 0 {
        Ok(())
    } else {
        Err(missing)
    }
}

} // verus!
