//! Properties that hold across operations of the engine.

use crate::block::{BlockView, SignatureView};
use crate::consensus::{first_with_id, tip_hash, ConsensusView};
use crate::validator::{signed_by, signed_stake, ValidatorView};
use vstd::prelude::*;

verus! {

/// A new proposal made on a linked chain takes an id that no confirmed
/// block has.
pub proof fn lemma_proposed_id_is_unconfirmed(
    before: ConsensusView,
    after: ConsensusView,
    b: BlockView,
    syzygy: u64,
    proposer: Seq<char>,
    timestamp: u64,
)
    requires
        before.chain_linked(),
        before.confirmed.len() < u64::MAX,
        before.proposed(after, b, syzygy, proposer, timestamp),
    ensures
        !before.confirmed_id(b.id),
        !after.confirmed_id(b.id),
{
    assert forall|i: int| 0 <= i < before.confirmed.len() implies before.confirmed[i].id != b.id by {
        assert(before.confirmed[i].id == i + 1);
    }
}

/// In every well-formed state, and so after every operation, no pending
/// block carries the id of a confirmed block: a confirmed id never
/// re-enters the pending list.
pub proof fn lemma_confirmed_id_never_pending(s: ConsensusView)
    requires
        s.wf(),
    ensures
        forall|i: int| 0 <= i < s.pending.len() ==> !s.confirmed_id(#[trigger] s.pending[i].id),
{
    assert forall|i: int| 0 <= i < s.pending.len() implies !s.confirmed_id(#[trigger] s.pending[i].id) by {
        if s.confirmed_id(s.pending[i].id) {
            let j = choose|j: int| 0 <= j < s.confirmed.len() && s.confirmed[j].id == s.pending[i].id;
            assert(s.pending[i].id != s.confirmed[j].id);
        }
    }
}

/// A proposal made on a linked chain keeps the chain linked and every pending
/// block current.
pub proof fn lemma_proposal_keeps_chain(
    before: ConsensusView,
    after: ConsensusView,
    b: BlockView,
    syzygy: u64,
    proposer: Seq<char>,
    timestamp: u64,
)
    requires
        before.chain_linked(),
        before.pending_current(),
        before.confirmed.len() < u64::MAX,
        before.proposed(after, b, syzygy, proposer, timestamp),
    ensures
        after.chain_linked(),
        after.pending_current(),
{
    assert forall|i: int| 0 <= i < after.pending.len() implies {
        &&& (#[trigger] after.pending[i]).previous_hash == tip_hash(after.confirmed)
        &&& after.pending[i].id == after.confirmed.len() + 1
    } by {
        if i < before.pending.len() {
            assert(after.pending[i] == before.pending[i]);
        } else {
            assert(after.pending[i] == b);
        }
    }
}

/// Confirming a pending block while every pending block is current extends
/// the chain and keeps it linked: the new last block links to the old last
/// hash (or to the genesis sentinel) and takes the next id.
pub proof fn lemma_promotion_keeps_chain_linked(before: ConsensusView, after: ConsensusView, i: int)
    requires
        before.chain_linked(),
        before.pending_current(),
        0 <= i < before.pending.len(),
        before.promoted(after, i),
    ensures
        after.chain_linked(),
        after.confirmed.last() == before.pending[i],
        before.pending.len() == 1 ==> after.pending_current(),
{
    let n = before.confirmed.len() as int;
    assert(before.pending[i].previous_hash == tip_hash(before.confirmed));
    assert forall|k: int| 0 <= k < after.confirmed.len() implies (#[trigger] after.confirmed[k]).previous_hash
        == if k == 0 {
        crate::consensus::genesis_hash()
    } else {
        after.confirmed[k - 1].current_hash
    } by {
        if k < n {
            assert(after.confirmed[k] == before.confirmed[k]);
            if k > 0 {
                assert(after.confirmed[k - 1] == before.confirmed[k - 1]);
            }
        } else {
            assert(after.confirmed[k] == before.pending[i]);
            if k > 0 {
                assert(after.confirmed[k - 1] == before.confirmed[k - 1]);
            }
        }
    }
    assert forall|k: int| 0 <= k < after.confirmed.len() implies (#[trigger] after.confirmed[k]).id == k + 1 by {
        if k < n {
            assert(after.confirmed[k] == before.confirmed[k]);
        }
    }
}

/// An approval touches only a pending block's signatures, so a linked chain
/// stays linked and current pending blocks stay current.
pub proof fn lemma_approval_keeps_chain(
    before: ConsensusView,
    after: ConsensusView,
    block_id: u64,
    validator: Seq<char>,
    timestamp: u64,
)
    requires
        before.chain_linked(),
        before.pending_current(),
        first_with_id(before.pending, block_id, crate::consensus::position_of(before.pending, block_id)),
        before.approved(after, block_id, validator, timestamp),
    ensures
        after.chain_linked(),
        after.pending_current(),
{
    let j = crate::consensus::position_of(before.pending, block_id);
    assert forall|i: int| 0 <= i < after.pending.len() implies {
        &&& (#[trigger] after.pending[i]).previous_hash == tip_hash(after.confirmed)
        &&& after.pending[i].id == after.confirmed.len() + 1
    } by {
        assert(before.pending[i].previous_hash == tip_hash(before.confirmed));
    }
}

/// Adding the signature of a validator that has already signed leaves the
/// signed stake as it was: each validator counts once.
pub proof fn lemma_repeat_approval_counts_once(
    vs: Seq<ValidatorView>,
    threshold: u64,
    sigs: Seq<SignatureView>,
    sig: SignatureView,
)
    requires
        signed_by(sigs, sig.validator_id),
    ensures
        signed_stake(vs, threshold, sigs.push(sig)) == signed_stake(vs, threshold, sigs),
    decreases vs.len(),
{
    if vs.len() > 0 {
        lemma_repeat_approval_counts_once(vs.drop_last(), threshold, sigs, sig);
        lemma_signed_by_push(sigs, sig, vs.last().id);
    }
}

proof fn lemma_signed_by_push(sigs: Seq<SignatureView>, sig: SignatureView, id: Seq<char>)
    requires
        signed_by(sigs, sig.validator_id),
    ensures
        signed_by(sigs.push(sig), id) == signed_by(sigs, id),
{
    let all = sigs.push(sig);
    if signed_by(sigs, id) {
        let k = choose|k: int| 0 <= k < sigs.len() && sigs[k].validator_id == id;
        assert(all[k] == sigs[k]);
    }
    if signed_by(all, id) {
        let k = choose|k: int| 0 <= k < all.len() && all[k].validator_id == id;
        if k < sigs.len() {
            assert(all[k] == sigs[k]);
        } else {
            let w = choose|w: int| 0 <= w < sigs.len() && sigs[w].validator_id == sig.validator_id;
            assert(sigs[w].validator_id == id);
        }
    }
}

} // verus!
