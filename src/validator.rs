//! Validators and the stake sums taken over a registry of them.

use crate::block::SignatureView;
use vstd::prelude::*;

verus! {

/// A registered participant with an eligibility score and a voting weight.
#[derive(Debug, Clone)]
pub struct Validator {
    pub id: String,
    /// Eligibility score in parts per million.
    pub syzygy: u64,
    /// Weight in voting.
    pub stake: u64,
    pub active: bool,
}

/// A validator as contracts see it.
pub struct ValidatorView {
    pub id: Seq<char>,
    pub syzygy: u64,
    pub stake: u64,
    pub active: bool,
}

impl View for Validator {
    type V = ValidatorView;

    open spec fn view(&self) -> ValidatorView {
        ValidatorView { id: self.id@, syzygy: self.syzygy, stake: self.stake, active: self.active }
    }
}

impl ValidatorView {
    pub open spec fn eligible(self, threshold: u64) -> bool {
        self.active && self.syzygy >= threshold
    }
}

impl Validator {
    /// Whether the validator is active and scores at least `threshold`.
    pub fn is_eligible(&self, threshold: u64) -> (r: bool)
        ensures
            r == self@.eligible(threshold),
    {
        self.active && self.syzygy >= threshold
    }
}

/// No two entries share an id.
pub open spec fn ids_unique(vs: Seq<ValidatorView>) -> bool {
    forall|i: int, j: int| 0 <= i < j < vs.len() ==> vs[i].id != vs[j].id
}

pub open spec fn registered(vs: Seq<ValidatorView>, id: Seq<char>) -> bool {
    exists|i: int| 0 <= i < vs.len() && vs[i].id == id
}

/// Where `id` stands in the registry (meaningful when it is registered).
pub open spec fn index_of(vs: Seq<ValidatorView>, id: Seq<char>) -> int {
    choose|i: int| 0 <= i < vs.len() && vs[i].id == id
}

/// The registered entry for `id` (meaningful when it is registered).
pub open spec fn lookup(vs: Seq<ValidatorView>, id: Seq<char>) -> ValidatorView {
    vs[index_of(vs, id)]
}

/// How many entries are eligible.
pub open spec fn eligible_count(vs: Seq<ValidatorView>, threshold: u64) -> nat
    decreases vs.len(),
{
    if vs.len() == 0 {
        0
    } else {
        eligible_count(vs.drop_last(), threshold) + if vs.last().eligible(threshold) {
            1nat
        } else {
            0nat
        }
    }
}

/// Total stake of the eligible entries.
pub open spec fn eligible_stake(vs: Seq<ValidatorView>, threshold: u64) -> nat
    decreases vs.len(),
{
    if vs.len() == 0 {
        0
    } else {
        eligible_stake(vs.drop_last(), threshold) + if vs.last().eligible(threshold) {
            vs.last().stake as nat
        } else {
            0nat
        }
    }
}

/// Some signature in `sigs` is by `id`.
pub open spec fn signed_by(sigs: Seq<SignatureView>, id: Seq<char>) -> bool {
    exists|k: int| 0 <= k < sigs.len() && sigs[k].validator_id == id
}

/// Total stake of the eligible entries that signed: each entry counts once,
/// however many of its signatures `sigs` holds.
pub open spec fn signed_stake(
    vs: Seq<ValidatorView>,
    threshold: u64,
    sigs: Seq<SignatureView>,
) -> nat
    decreases vs.len(),
{
    if vs.len() == 0 {
        0
    } else {
        signed_stake(vs.drop_last(), threshold, sigs) + if vs.last().eligible(threshold)
            && signed_by(sigs, vs.last().id) {
            vs.last().stake as nat
        } else {
            0nat
        }
    }
}

/// Sum of all scores, eligible or not.
pub open spec fn score_sum(vs: Seq<ValidatorView>) -> nat
    decreases vs.len(),
{
    if vs.len() == 0 {
        0
    } else {
        score_sum(vs.drop_last()) + vs.last().syzygy as nat
    }
}

/// Two thirds of `total`, rounded down.
pub open spec fn two_thirds(total: nat) -> nat {
    (2 * total) / 3
}

} // verus!
