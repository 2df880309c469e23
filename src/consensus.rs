//! The consensus engine: registry, pending blocks, votes and the confirmed
//! chain, held in one aggregate.

use crate::block::{BlockView, HandoverBlock, SignatureView, ValidatorSignature};
use crate::clock::unix_seconds;
use crate::validator::{
    eligible_count, eligible_stake, ids_unique, index_of, lookup, registered, score_sum, signed_by,
    signed_stake, two_thirds, Validator, ValidatorView,
};
use vstd::prelude::*;

verus! {

/// Why an operation was refused. A refused operation changes nothing.
#[derive(Debug, Clone, Copy, PartialEq, Eq, Structural)]
pub enum ConsensusError {
    /// The score offered at registration is below the threshold.
    RegistrationRejected,
    ProposerUnregistered,
    ProposerIneligible,
    /// A new block's coherence and fluctuation do not make up one.
    ConservationViolation,
    ValidatorNotFound,
    ValidatorIneligible,
    /// A block is already awaiting confirmation: one proposal is pending at
    /// a time.
    ProposalPending,
    /// No pending block has the id.
    BlockNotFound,
}

/// The engine's state.
pub struct LatticaConsensus {
    validators: Vec<Validator>,
    min_validators: usize,
    syzygy_threshold: u64,
    pending_blocks: Vec<HandoverBlock>,
    confirmed_blocks: Vec<HandoverBlock>,
}

/// The engine's state as contracts see it.
pub struct ConsensusView {
    pub validators: Seq<ValidatorView>,
    pub min_validators: usize,
    pub threshold: u64,
    pub pending: Seq<BlockView>,
    pub confirmed: Seq<BlockView>,
}

impl View for LatticaConsensus {
    type V = ConsensusView;

    closed spec fn view(&self) -> ConsensusView {
        ConsensusView {
            validators: self.validators@.map_values(|v: Validator| v@),
            min_validators: self.min_validators,
            threshold: self.syzygy_threshold,
            pending: self.pending_blocks@.map_values(|b: HandoverBlock| b@),
            confirmed: self.confirmed_blocks@.map_values(|b: HandoverBlock| b@),
        }
    }
}

impl ConsensusView {
    /// What every reachable state satisfies: validator ids are unique, every
    /// registered score meets the threshold, every block, pending or
    /// confirmed, conserves coherence plus fluctuation, the chain is
    /// hash-linked, at most one block is pending, it was proposed on the
    /// chain as it stands, and no pending id is a confirmed id.
    pub open spec fn wf(self) -> bool {
        &&& ids_unique(self.validators)
        &&& self.scores_meet_threshold()
        &&& self.blocks_conserve()
        &&& self.chain_linked()
        &&& self.pending.len() <= 1
        &&& self.pending_current()
        &&& self.pending_unconfirmed()
    }

    /// Every registered validator scores at least the threshold.
    pub open spec fn scores_meet_threshold(self) -> bool {
        forall|i: int|
            0 <= i < self.validators.len() ==> #[trigger] self.validators[i].syzygy
                >= self.threshold
    }

    /// Every block, pending or confirmed, has coherence plus fluctuation
    /// equal to one.
    pub open spec fn blocks_conserve(self) -> bool {
        &&& forall|i: int| 0 <= i < self.pending.len() ==> #[trigger] self.pending[i].conserves()
        &&& forall|i: int|
            0 <= i < self.confirmed.len() ==> #[trigger] self.confirmed[i].conserves()
    }

    /// Whether `b` gathers enough approval now: at least `min_validators`
    /// validators are eligible, and the stake of its distinct eligible
    /// signers reaches two thirds (rounded down) of the eligible stake.
    pub open spec fn consensus_reached(self, b: BlockView) -> bool {
        &&& eligible_count(self.validators, self.threshold) >= self.min_validators
        &&& signed_stake(self.validators, self.threshold, b.signatures) >= two_thirds(
            eligible_stake(self.validators, self.threshold),
        )
    }

    /// `after` is this state with `b`, a fresh block by `proposer` scored
    /// `syzygy` and stamped `timestamp`, appended to the pending list; its id
    /// is one past the chain's length and it links to the chain's last hash.
    pub open spec fn proposed(
        self,
        after: ConsensusView,
        b: BlockView,
        syzygy: u64,
        proposer: Seq<char>,
        timestamp: u64,
    ) -> bool {
        &&& b.is_fresh(
            (self.confirmed.len() + 1) as u64,
            timestamp,
            syzygy,
            proposer,
            tip_hash(self.confirmed),
        )
        &&& after.pending == self.pending.push(b)
        &&& after.validators == self.validators
        &&& after.min_validators == self.min_validators
        &&& after.threshold == self.threshold
        &&& after.confirmed == self.confirmed
    }

    /// What a proposal by `proposer` returns when it is refused: an error
    /// when the proposer is unknown, then when it is ineligible, then when a
    /// block is already pending.
    pub open spec fn propose_outcome(self, proposer: Seq<char>) -> Result<(), ConsensusError> {
        if !registered(self.validators, proposer) {
            Err(ConsensusError::ProposerUnregistered)
        } else if !lookup(self.validators, proposer).eligible(self.threshold) {
            Err(ConsensusError::ProposerIneligible)
        } else if self.pending.len() > 0 {
            Err(ConsensusError::ProposalPending)
        } else {
            Ok(())
        }
    }

    /// What a vote by `validator` on `block_id` returns: an error when the
    /// validator is unknown, then when it is ineligible, then when no pending
    /// block has the id.
    pub open spec fn vote_outcome(self, block_id: u64, validator: Seq<char>) -> Result<
        (),
        ConsensusError,
    > {
        if !registered(self.validators, validator) {
            Err(ConsensusError::ValidatorNotFound)
        } else if !lookup(self.validators, validator).eligible(self.threshold) {
            Err(ConsensusError::ValidatorIneligible)
        } else if !holds_id(self.pending, block_id) {
            Err(ConsensusError::BlockNotFound)
        } else {
            Ok(())
        }
    }

    /// `after` is this state with an approval by `validator`, carrying its
    /// current score and stamped `timestamp`, appended to the first pending
    /// block with `block_id`.
    pub open spec fn approved(
        self,
        after: ConsensusView,
        block_id: u64,
        validator: Seq<char>,
        timestamp: u64,
    ) -> bool {
        let i = position_of(self.pending, block_id);
        let sig = SignatureView {
            validator_id: validator,
            validator_syzygy: lookup(self.validators, validator).syzygy,
            signature: signature_token_of(validator),
            timestamp,
        };
        &&& after.pending == self.pending.update(i, self.pending[i].with_signature(sig))
        &&& after.validators == self.validators
        &&& after.min_validators == self.min_validators
        &&& after.threshold == self.threshold
        &&& after.confirmed == self.confirmed
    }

    /// `after` is this state with the pending block at `i` moved to the end
    /// of the chain.
    pub open spec fn promoted(self, after: ConsensusView, i: int) -> bool {
        &&& after.pending == self.pending.remove(i)
        &&& after.confirmed == self.confirmed.push(self.pending[i])
        &&& after.validators == self.validators
        &&& after.min_validators == self.min_validators
        &&& after.threshold == self.threshold
    }

    /// Each confirmed block links to the one before it, the first to the
    /// genesis sentinel, and the chain's ids run 1, 2, 3, ...
    pub open spec fn chain_linked(self) -> bool {
        &&& forall|i: int|
            0 <= i < self.confirmed.len() ==> (#[trigger] self.confirmed[i]).previous_hash == if i
                == 0 {
                genesis_hash()
            } else {
                self.confirmed[i - 1].current_hash
            }
        &&& forall|i: int| 0 <= i < self.confirmed.len() ==> (#[trigger] self.confirmed[i]).id == i + 1
    }

    /// Every pending block was proposed on the chain as it stands now.
    pub open spec fn pending_current(self) -> bool {
        forall|i: int|
            0 <= i < self.pending.len() ==> {
                &&& (#[trigger] self.pending[i]).previous_hash == tip_hash(self.confirmed)
                &&& self.pending[i].id == self.confirmed.len() + 1
            }
    }

    /// No pending block carries the id of a confirmed block.
    pub open spec fn pending_unconfirmed(self) -> bool {
        forall|i: int, j: int|
            0 <= i < self.pending.len() && 0 <= j < self.confirmed.len() ==> (#[trigger] self.pending[i]).id
                != (#[trigger] self.confirmed[j]).id
    }

    /// Some confirmed block has `id`.
    pub open spec fn confirmed_id(self, id: u64) -> bool {
        exists|i: int| 0 <= i < self.confirmed.len() && self.confirmed[i].id == id
    }

    /// Same registry, blocks and settings.
    pub open spec fn unchanged(self, other: ConsensusView) -> bool {
        &&& self.validators == other.validators
        &&& self.min_validators == other.min_validators
        &&& self.threshold == other.threshold
        &&& self.pending == other.pending
        &&& self.confirmed == other.confirmed
    }
}

/// The previous-hash sentinel of the first block of a chain.
pub open spec fn genesis_hash() -> Seq<char> {
    seq!['g', 'e', 'n', 'e', 's', 'i', 's']
}

/// The hash a new block links to: that of the chain's last block, or the
/// sentinel for an empty chain.
pub open spec fn tip_hash(confirmed: Seq<BlockView>) -> Seq<char> {
    if confirmed.len() == 0 {
        genesis_hash()
    } else {
        confirmed.last().current_hash
    }
}

/// The opaque token recorded for an approval by `id`.
pub open spec fn signature_token_of(id: Seq<char>) -> Seq<char> {
    seq!['s', 'i', 'g', '_'] + id
}

/// `i` is the first place in `blocks` that holds a block with `id`.
pub open spec fn first_with_id(blocks: Seq<BlockView>, id: u64, i: int) -> bool {
    &&& 0 <= i < blocks.len()
    &&& blocks[i].id == id
    &&& forall|j: int| 0 <= j < i ==> blocks[j].id != id
}

pub open spec fn holds_id(blocks: Seq<BlockView>, id: u64) -> bool {
    exists|i: int| 0 <= i < blocks.len() && blocks[i].id == id
}

/// The first place in `blocks` with `id` (meaningful when one holds it).
pub open spec fn position_of(blocks: Seq<BlockView>, id: u64) -> int {
    choose|i: int| first_with_id(blocks, id, i)
}

/// Two thirds of `total`, rounded down, without overflow.
fn two_thirds_of(total: u128) -> (r: u128)
    ensures
        r == two_thirds(total as nat),
{
    let q = total / 3;
    let m = total % 3;
    assert(total == 3 * q + m);
    2 * q + (2 * m) / 3
}

/// The opaque token recorded for an approval by `id`.
fn signature_token(id: &String) -> (r: String)
    ensures
        r@ == signature_token_of(id@),
{
    let mut token = String::from_str("sig_");
    proof {
        reveal_strlit("sig_");
    }
    token.append(id.as_str());
    token
}

impl LatticaConsensus {
    /// An engine with no validators and no blocks.
    pub fn new(min_validators: usize, syzygy_threshold: u64) -> (r: LatticaConsensus)
        ensures
            r@.wf(),
            r@.validators.len() == 0,
            r@.pending.len() == 0,
            r@.confirmed.len() == 0,
            r@.min_validators == min_validators,
            r@.threshold == syzygy_threshold,
    {
        let r = LatticaConsensus {
            validators: Vec::new(),
            min_validators,
            syzygy_threshold,
            pending_blocks: Vec::new(),
            confirmed_blocks: Vec::new(),
        };
        assert(r@.validators =~= Seq::<ValidatorView>::empty());
        assert(r@.pending =~= Seq::<BlockView>::empty());
        assert(r@.confirmed =~= Seq::<BlockView>::empty());
        r
    }

    /// Where the validator with `id` stands, if it is registered.
    fn find_validator(&self, id: &String) -> (r: Option<usize>)
        requires
            self@.wf(),
        ensures
            match r {
                Some(i) => i < self@.validators.len() && i == index_of(self@.validators, id@)
                    && self@.validators[i as int].id == id@,
                None => !registered(self@.validators, id@),
            },
    {
        let mut i: usize = 0;
        while i < self.validators.len()
            invariant
                self@.wf(),
                0 <= i <= self@.validators.len(),
                self@.validators.len() == self.validators@.len(),
                forall|j: int| 0 <= j < i ==> self@.validators[j].id != id@,
            decreases self.validators@.len() - i,
        {
            if self.validators[i].id == *id {
                assert(self@.validators[i as int].id == id@);
                let ghost k = index_of(self@.validators, id@);
                assert(0 <= k < self@.validators.len() && self@.validators[k].id == id@);
                return Some(i);
            }
            i = i + 1;
        }
        None
    }

    /// Registers `id`, or replaces its entry, as an active validator.
    /// Refused when `syzygy` is below the threshold.
    pub fn register_validator(&mut self, id: String, syzygy: u64, stake: u64) -> (r: Result<
        (),
        ConsensusError,
    >)
        requires
            old(self)@.wf(),
        ensures
            final(self)@.wf(),
            syzygy < old(self)@.threshold ==> r == Err::<(), ConsensusError>(
                ConsensusError::RegistrationRejected,
            ) && final(self)@.unchanged(old(self)@),
            syzygy >= old(self)@.threshold ==> r is Ok && ({
                let nv = ValidatorView { id: id@, syzygy, stake, active: true };
                let old_vs = old(self)@.validators;
                &&& final(self)@.validators == if registered(old_vs, id@) {
                    old_vs.update(index_of(old_vs, id@), nv)
                } else {
                    old_vs.push(nv)
                }
                &&& final(self)@.min_validators == old(self)@.min_validators
                &&& final(self)@.threshold == old(self)@.threshold
                &&& final(self)@.pending == old(self)@.pending
                &&& final(self)@.confirmed == old(self)@.confirmed
            }),
    {
        if syzygy < self.syzygy_threshold {
            return Err(ConsensusError::RegistrationRejected);
        }
        let ghost old_view = self@;
        let ghost old_vs = self@.validators;
        let validator = Validator { id: id.clone(), syzygy, stake, active: true };
        match self.find_validator(&id) {
            Some(i) => {
                self.validators.set(i, validator);
                assert(self@.validators =~= old_vs.update(i as int, validator@));
                assert forall|a: int, b: int|
                    0 <= a < b < self@.validators.len() implies self@.validators[a].id
                    != self@.validators[b].id by {
                    if a == i as int {
                        assert(old_vs[b].id != old_vs[a].id);
                    } else if b == i as int {
                        assert(old_vs[a].id != old_vs[b].id);
                    }
                }
            },
            None => {
                self.validators.push(validator);
                assert(self@.validators =~= old_vs.push(validator@));
                assert forall|a: int, b: int|
                    0 <= a < b < self@.validators.len() implies self@.validators[a].id
                    != self@.validators[b].id by {
                    if b == old_vs.len() {
                        assert(!(0 <= a < old_vs.len() && old_vs[a].id == id@));
                    }
                }
            },
        }
        assert(self@.pending =~= old_view.pending);
        assert(self@.confirmed =~= old_view.confirmed);
        Ok(())
    }

    /// How many validators are eligible, and their total stake.
    fn eligible_totals(&self) -> (r: (usize, u128))
        ensures
            r.0 == eligible_count(self@.validators, self@.threshold),
            r.1 == eligible_stake(self@.validators, self@.threshold),
    {
        let ghost vs = self@.validators;
        let mut count: usize = 0;
        let mut stake: u128 = 0;
        let mut i: usize = 0;
        while i < self.validators.len()
            invariant
                vs == self@.validators,
                vs.len() == self.validators@.len(),
                0 <= i <= vs.len(),
                count == eligible_count(vs.take(i as int), self@.threshold),
                stake == eligible_stake(vs.take(i as int), self@.threshold),
                count <= i,
                stake <= i * 0xffff_ffff_ffff_ffffu128,
            decreases vs.len() - i,
        {
            assert(vs.take(i + 1).drop_last() =~= vs.take(i as int));
            let v = &self.validators[i];
            if v.is_eligible(self.syzygy_threshold) {
                assert(stake + v.stake <= (i + 1) * 0xffff_ffff_ffff_ffffu128) by (nonlinear_arith)
                    requires
                        stake <= i * 0xffff_ffff_ffff_ffffu128,
                        v.stake <= 0xffff_ffff_ffff_ffffu64,
                ;
                assert((i + 1) * 0xffff_ffff_ffff_ffffu128 <= u128::MAX) by (nonlinear_arith)
                    requires
                        i < 0x1_0000_0000_0000_0000int,
                ;
                count = count + 1;
                stake = stake + v.stake as u128;
            } else {
                assert(stake <= (i + 1) * 0xffff_ffff_ffff_ffffu128) by (nonlinear_arith)
                    requires
                        stake <= i * 0xffff_ffff_ffff_ffffu128,
                ;
            }
            i = i + 1;
        }
        assert(vs.take(i as int) =~= vs);
        (count, stake)
    }

    /// Whether some signature in `sigs` is by `id`.
    fn has_signature(sigs: &Vec<ValidatorSignature>, id: &String) -> (r: bool)
        ensures
            r == signed_by(sigs@.map_values(|s: ValidatorSignature| s@), id@),
    {
        let ghost sv = sigs@.map_values(|s: ValidatorSignature| s@);
        let mut k: usize = 0;
        while k < sigs.len()
            invariant
                sv == sigs@.map_values(|s: ValidatorSignature| s@),
                0 <= k <= sigs@.len(),
                forall|j: int| 0 <= j < k ==> sv[j].validator_id != id@,
            decreases sigs@.len() - k,
        {
            if sigs[k].validator_id == *id {
                assert(sv[k as int].validator_id == id@);
                return true;
            }
            k = k + 1;
        }
        false
    }

    /// Total stake of the eligible validators with a signature in `sigs`,
    /// each counted once.
    fn signed_stake_of(&self, sigs: &Vec<ValidatorSignature>) -> (r: u128)
        ensures
            r == signed_stake(
                self@.validators,
                self@.threshold,
                sigs@.map_values(|s: ValidatorSignature| s@),
            ),
    {
        let ghost vs = self@.validators;
        let ghost sv = sigs@.map_values(|s: ValidatorSignature| s@);
        let mut stake: u128 = 0;
        let mut i: usize = 0;
        while i < self.validators.len()
            invariant
                vs == self@.validators,
                sv == sigs@.map_values(|s: ValidatorSignature| s@),
                vs.len() == self.validators@.len(),
                0 <= i <= vs.len(),
                stake == signed_stake(vs.take(i as int), self@.threshold, sv),
                stake <= i * 0xffff_ffff_ffff_ffffu128,
            decreases vs.len() - i,
        {
            assert(vs.take(i + 1).drop_last() =~= vs.take(i as int));
            let v = &self.validators[i];
            if v.is_eligible(self.syzygy_threshold) && LatticaConsensus::has_signature(sigs, &v.id) {
                assert(stake + v.stake <= (i + 1) * 0xffff_ffff_ffff_ffffu128) by (nonlinear_arith)
                    requires
                        stake <= i * 0xffff_ffff_ffff_ffffu128,
                        v.stake <= 0xffff_ffff_ffff_ffffu64,
                ;
                assert((i + 1) * 0xffff_ffff_ffff_ffffu128 <= u128::MAX) by (nonlinear_arith)
                    requires
                        i < 0x1_0000_0000_0000_0000int,
                ;
                stake = stake + v.stake as u128;
            } else {
                assert(stake <= (i + 1) * 0xffff_ffff_ffff_ffffu128) by (nonlinear_arith)
                    requires
                        stake <= i * 0xffff_ffff_ffff_ffffu128,
                ;
            }
            i = i + 1;
        }
        assert(vs.take(i as int) =~= vs);
        stake
    }

    /// The first pending block with `block_id`, if any.
    fn find_pending(&self, block_id: u64) -> (r: Option<usize>)
        ensures
            match r {
                Some(i) => first_with_id(self@.pending, block_id, i as int) && i == position_of(
                    self@.pending,
                    block_id,
                ),
                None => !holds_id(self@.pending, block_id),
            },
    {
        let ghost pv = self@.pending;
        let mut i: usize = 0;
        while i < self.pending_blocks.len()
            invariant
                pv == self@.pending,
                pv.len() == self.pending_blocks@.len(),
                0 <= i <= pv.len(),
                forall|j: int| 0 <= j < i ==> pv[j].id != block_id,
            decreases pv.len() - i,
        {
            if self.pending_blocks[i].id == block_id {
                assert(first_with_id(pv, block_id, i as int));
                let ghost k = position_of(pv, block_id);
                assert(first_with_id(pv, block_id, k));
                assert(k == i) by {
                    if k < i {
                        assert(pv[k].id != block_id);
                    } else if k > i {
                        assert(pv[i as int].id != block_id);
                    }
                }
                return Some(i);
            }
            i = i + 1;
        }
        None
    }

    /// Evaluates the first pending block with `block_id`. When it gathers
    /// enough approval it leaves the pending list for the end of the chain
    /// and the result is `Ok(true)`; otherwise nothing changes and the result
    /// is `Ok(false)`.
    pub fn check_consensus(&mut self, block_id: u64) -> (r: Result<bool, ConsensusError>)
        requires
            old(self)@.wf(),
        ensures
            final(self)@.wf(),
            !holds_id(old(self)@.pending, block_id) ==> r == Err::<bool, ConsensusError>(
                ConsensusError::BlockNotFound,
            ) && final(self)@.unchanged(old(self)@),
            holds_id(old(self)@.pending, block_id) ==> ({
                let s = old(self)@;
                let i = position_of(s.pending, block_id);
                let reached = s.consensus_reached(s.pending[i]);
                &&& first_with_id(s.pending, block_id, i)
                &&& r == Ok::<bool, ConsensusError>(reached)
                &&& reached ==> s.promoted(final(self)@, i)
                &&& !reached ==> final(self)@.unchanged(s)
            }),
    {
        let ghost s = self@;
        let idx = match self.find_pending(block_id) {
            Some(i) => i,
            None => {
                return Err(ConsensusError::BlockNotFound);
            },
        };
        let (count, total) = self.eligible_totals();
        if count < self.min_validators {
            return Ok(false);
        }
        let voted = self.signed_stake_of(&self.pending_blocks[idx as usize].signatures);
        let reached = voted >= two_thirds_of(total);
        if reached {
            let block = self.pending_blocks.remove(idx);
            self.confirmed_blocks.push(block);
            assert(self@.pending =~= s.pending.remove(idx as int));
            assert(self@.confirmed =~= s.confirmed.push(s.pending[idx as int]));
            assert forall|k: int| 0 <= k < self@.pending.len() implies #[trigger] self@.pending[k].conserves() by {
                if k < idx {
                    assert(s.pending[k].conserves());
                } else {
                    assert(s.pending[k + 1].conserves());
                }
            }
            assert forall|k: int| 0 <= k < self@.confirmed.len() implies #[trigger] self@.confirmed[k].conserves() by {
                if k < s.confirmed.len() {
                    assert(s.confirmed[k].conserves());
                } else {
                    assert(s.pending[idx as int].conserves());
                }
            }
        }
        Ok(reached)
    }

    /// The hash a new block links to.
    fn latest_hash(&self) -> (r: String)
        ensures
            r@ == tip_hash(self@.confirmed),
    {
        let n = self.confirmed_blocks.len();
        if n == 0 {
            let g = String::from_str("genesis");
            proof {
                reveal_strlit("genesis");
            }
            g
        } else {
            self.confirmed_blocks[n - 1].current_hash.clone()
        }
    }

    /// Proposes a block stamped with the current time; see `propose_block_at`.
    pub fn propose_block(&mut self, syzygy: u64, proposer_id: String) -> (r: Result<
        HandoverBlock,
        ConsensusError,
    >)
        requires
            old(self)@.wf(),
            old(self)@.confirmed.len() < u64::MAX,
        ensures
            final(self)@.wf(),
            old(self)@.propose_outcome(proposer_id@) is Err ==> r == Err::<
                HandoverBlock,
                ConsensusError,
            >(old(self)@.propose_outcome(proposer_id@)->Err_0) && final(self)@.unchanged(
                old(self)@,
            ),
            old(self)@.propose_outcome(proposer_id@) is Ok ==> r is Ok && old(self)@.proposed(
                final(self)@,
                r->Ok_0@,
                syzygy,
                proposer_id@,
                r->Ok_0.timestamp,
            ),
    {
        let timestamp = unix_seconds();
        self.propose_block_at(syzygy, proposer_id, timestamp)
    }

    /// Proposes a block with score `syzygy` on behalf of `proposer_id`,
    /// stamped with `timestamp`. The proposer must be registered and
    /// eligible, and no other block may be pending. The block takes the id one past the chain's length, links to
    /// the chain's last hash (or the genesis sentinel), joins the end of the
    /// pending list, and a copy of it is returned. The chain must be shorter
    /// than `u64::MAX` blocks, so that the next id fits.
    pub fn propose_block_at(&mut self, syzygy: u64, proposer_id: String, timestamp: u64) -> (r:
        Result<HandoverBlock, ConsensusError>)
        requires
            old(self)@.wf(),
            old(self)@.confirmed.len() < u64::MAX,
        ensures
            final(self)@.wf(),
            old(self)@.propose_outcome(proposer_id@) is Err ==> r == Err::<
                HandoverBlock,
                ConsensusError,
            >(old(self)@.propose_outcome(proposer_id@)->Err_0) && final(self)@.unchanged(
                old(self)@,
            ),
            old(self)@.propose_outcome(proposer_id@) is Ok ==> r is Ok && old(self)@.proposed(
                final(self)@,
                r->Ok_0@,
                syzygy,
                proposer_id@,
                timestamp,
            ),
    {
        let ghost s = self@;
        match self.find_validator(&proposer_id) {
            None => {
                return Err(ConsensusError::ProposerUnregistered);
            },
            Some(i) => {
                if !self.validators[i].is_eligible(self.syzygy_threshold) {
                    return Err(ConsensusError::ProposerIneligible);
                }
            },
        }
        if self.pending_blocks.len() > 0 {
            return Err(ConsensusError::ProposalPending);
        }
        let previous_hash = self.latest_hash();
        let block_id = self.confirmed_blocks.len() as u64 + 1;
        let block = HandoverBlock::with_timestamp(
            block_id,
            timestamp,
            syzygy,
            proposer_id,
            previous_hash,
        );
        if !block.verify_conservation() {
            return Err(ConsensusError::ConservationViolation);
        }
        let copy = block.snapshot();
        self.pending_blocks.push(block);
        assert(self@.pending =~= s.pending.push(copy@));
        assert(self@.validators =~= s.validators);
        assert(self@.confirmed =~= s.confirmed);
        assert(self@.pending[0] == copy@);
        assert forall|j: int| 0 <= j < self@.confirmed.len() implies (#[trigger] self@.confirmed[j]).id
            != copy@.id by {
            assert(s.confirmed[j].id == j + 1);
        }
        Ok(copy)
    }

    /// Records a vote stamped with the current time; see `vote_at`.
    pub fn vote(&mut self, block_id: u64, validator_id: String, approve: bool) -> (r: Result<
        (),
        ConsensusError,
    >)
        requires
            old(self)@.wf(),
        ensures
            final(self)@.wf(),
            r is Err ==> final(self)@.unchanged(old(self)@),
            r == old(self)@.vote_outcome(block_id, validator_id@),
            r is Ok && !approve ==> final(self)@.unchanged(old(self)@),
            r is Ok && approve ==> exists|t: u64|
                old(self)@.approved(final(self)@, block_id, validator_id@, t),
    {
        let timestamp = unix_seconds();
        self.vote_at(block_id, validator_id, approve, timestamp)
    }

    /// Records `validator_id`'s vote on the first pending block with
    /// `block_id`, stamped with `timestamp`. The validator must be registered
    /// and eligible, and the block pending. An approval appends a signature
    /// carrying the validator's current score; a rejection records nothing.
    pub fn vote_at(&mut self, block_id: u64, validator_id: String, approve: bool, timestamp: u64) -> (r:
        Result<(), ConsensusError>)
        requires
            old(self)@.wf(),
        ensures
            final(self)@.wf(),
            r == old(self)@.vote_outcome(block_id, validator_id@),
            r is Err ==> final(self)@.unchanged(old(self)@),
            r is Ok && !approve ==> final(self)@.unchanged(old(self)@),
            r is Ok && approve ==> old(self)@.approved(
                final(self)@,
                block_id,
                validator_id@,
                timestamp,
            ),
    {
        let ghost s = self@;
        let vi = match self.find_validator(&validator_id) {
            None => {
                return Err(ConsensusError::ValidatorNotFound);
            },
            Some(i) => i,
        };
        if !self.validators[vi].is_eligible(self.syzygy_threshold) {
            return Err(ConsensusError::ValidatorIneligible);
        }
        let bi = match self.find_pending(block_id) {
            None => {
                return Err(ConsensusError::BlockNotFound);
            },
            Some(i) => i,
        };
        if approve {
            let signature = ValidatorSignature {
                validator_syzygy: self.validators[vi].syzygy,
                signature: signature_token(&validator_id),
                validator_id,
                timestamp,
            };
            let ghost sig = signature@;
            self.pending_blocks[bi].signatures.push(signature);
            assert(self@.pending[bi as int].signatures =~= s.pending[bi as int].signatures.push(sig));
            assert(self@.pending =~= s.pending.update(
                bi as int,
                s.pending[bi as int].with_signature(sig),
            ));
            assert(self@.validators =~= s.validators);
            assert(self@.confirmed =~= s.confirmed);
            assert forall|k: int| 0 <= k < self@.pending.len() implies #[trigger] self@.pending[k].conserves() by {
                assert(s.pending[k].conserves());
            }
        }
        Ok(())
    }

    /// Mean score over all registered validators, active or not, rounded
    /// down; 0 for an empty registry.
    pub fn network_syzygy(&self) -> (r: u64)
        ensures
            self@.validators.len() == 0 ==> r == 0,
            self@.validators.len() > 0 ==> r == score_sum(self@.validators) / self@.validators.len(),
    {
        let ghost vs = self@.validators;
        let n = self.validators.len();
        if n == 0 {
            return 0;
        }
        let mut sum: u128 = 0;
        let mut i: usize = 0;
        while i < n
            invariant
                vs == self@.validators,
                n == vs.len(),
                vs.len() == self.validators@.len(),
                0 <= i <= n,
                sum == score_sum(vs.take(i as int)),
                sum <= i * 0xffff_ffff_ffff_ffffu128,
            decreases n - i,
        {
            assert(vs.take(i + 1).drop_last() =~= vs.take(i as int));
            let score = self.validators[i].syzygy;
            assert(sum + score <= (i + 1) * 0xffff_ffff_ffff_ffffu128) by (nonlinear_arith)
                requires
                    sum <= i * 0xffff_ffff_ffff_ffffu128,
                    score <= 0xffff_ffff_ffff_ffffu64,
            ;
            assert((i + 1) * 0xffff_ffff_ffff_ffffu128 <= u128::MAX) by (nonlinear_arith)
                requires
                    i < 0x1_0000_0000_0000_0000int,
            ;
            sum = sum + score as u128;
            i = i + 1;
        }
        assert(vs.take(n as int) =~= vs);
        let mean = sum / (n as u128);
        assert(mean <= 0xffff_ffff_ffff_ffffu128) by (nonlinear_arith)
            requires
                sum <= n * 0xffff_ffff_ffff_ffffu128,
                n > 0,
                mean == sum / (n as u128),
        ;
        mean as u64
    }

    /// Deactivates every validator whose score is below the threshold.
    /// Validators are never reactivated here: one returns by registering
    /// again.
    pub fn rotate_validators(&mut self)
        requires
            old(self)@.wf(),
        ensures
            final(self)@.wf(),
            final(self)@.validators.len() == old(self)@.validators.len(),
            forall|i: int|
                0 <= i < old(self)@.validators.len() ==> {
                    let v = #[trigger] old(self)@.validators[i];
                    final(self)@.validators[i] == ValidatorView {
                        active: v.active && v.syzygy >= old(self)@.threshold,
                        ..v
                    }
                },
            final(self)@.min_validators == old(self)@.min_validators,
            final(self)@.threshold == old(self)@.threshold,
            final(self)@.pending == old(self)@.pending,
            final(self)@.confirmed == old(self)@.confirmed,
    {
        let ghost s = self@;
        let mut i: usize = 0;
        while i < self.validators.len()
            invariant
                0 <= i <= self.validators@.len(),
                self.validators@.len() == s.validators.len(),
                self.syzygy_threshold == s.threshold,
                self.min_validators == s.min_validators,
                self@.pending == s.pending,
                self@.confirmed == s.confirmed,
                forall|j: int|
                    0 <= j < self.validators@.len() ==> {
                        let v = #[trigger] s.validators[j];
                        self@.validators[j] == if j < i {
                            ValidatorView { active: v.active && v.syzygy >= s.threshold, ..v }
                        } else {
                            v
                        }
                    },
            decreases self.validators@.len() - i,
        {
            if self.validators[i].syzygy < self.syzygy_threshold {
                self.validators[i].active = false;
            }
            i = i + 1;
        }
        assert forall|a: int, b: int|
            0 <= a < b < self@.validators.len() implies self@.validators[a].id
            != self@.validators[b].id by {
            assert(s.validators[a].id != s.validators[b].id);
        }
        assert forall|k: int|
            0 <= k < self@.validators.len() implies #[trigger] self@.validators[k].syzygy
            >= self@.threshold by {
            assert(s.validators[k].syzygy >= s.threshold);
        }
    }

    /// The confirmed chain, oldest first.
    pub fn confirmed_blocks(&self) -> (r: &Vec<HandoverBlock>)
        ensures
            r@.map_values(|b: HandoverBlock| b@) == self@.confirmed,
    {
        &self.confirmed_blocks
    }

    /// The blocks awaiting confirmation, in proposal order.
    pub fn pending_blocks(&self) -> (r: &Vec<HandoverBlock>)
        ensures
            r@.map_values(|b: HandoverBlock| b@) == self@.pending,
    {
        &self.pending_blocks
    }
}

} // verus!
