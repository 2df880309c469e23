//! Handover blocks and the approvals they collect.

use crate::clock::unix_seconds;
use crate::encoding::{be64, framed_text, push_text, push_u64, sha256_hex, sha256_hex_of, SCORE_SCALE};
use vstd::prelude::*;

verus! {

/// Coherence share given to every proposed block.
pub const BASELINE_COHERENCE: u64 = 860_000;

/// Fluctuation share given to every proposed block; with the coherence it
/// makes up `SCORE_SCALE` exactly.
pub const BASELINE_FLUCTUATION: u64 = 140_000;

/// An approval of a block by one validator.
#[derive(Debug, Clone)]
pub struct ValidatorSignature {
    pub validator_id: String,
    /// The validator's score when it voted, in parts per million.
    pub validator_syzygy: u64,
    /// Opaque token standing for the validator's signature.
    pub signature: String,
    pub timestamp: u64,
}

/// A signature as contracts see it.
pub struct SignatureView {
    pub validator_id: Seq<char>,
    pub validator_syzygy: u64,
    pub signature: Seq<char>,
    pub timestamp: u64,
}

impl View for ValidatorSignature {
    type V = SignatureView;

    open spec fn view(&self) -> SignatureView {
        SignatureView {
            validator_id: self.validator_id@,
            validator_syzygy: self.validator_syzygy,
            signature: self.signature@,
            timestamp: self.timestamp,
        }
    }
}

/// A proposed, hash-linked ledger entry.
#[derive(Debug, Clone)]
pub struct HandoverBlock {
    pub id: u64,
    pub timestamp: u64,
    pub previous_hash: String,
    pub current_hash: String,
    /// The score the proposer put forward, in parts per million.
    pub syzygy: u64,
    pub coherence: u64,
    pub fluctuation: u64,
    pub proposer_id: String,
    pub signatures: Vec<ValidatorSignature>,
}

/// A block as contracts see it.
pub struct BlockView {
    pub id: u64,
    pub timestamp: u64,
    pub previous_hash: Seq<char>,
    pub current_hash: Seq<char>,
    pub syzygy: u64,
    pub coherence: u64,
    pub fluctuation: u64,
    pub proposer_id: Seq<char>,
    pub signatures: Seq<SignatureView>,
}

impl View for HandoverBlock {
    type V = BlockView;

    open spec fn view(&self) -> BlockView {
        BlockView {
            id: self.id,
            timestamp: self.timestamp,
            previous_hash: self.previous_hash@,
            current_hash: self.current_hash@,
            syzygy: self.syzygy,
            coherence: self.coherence,
            fluctuation: self.fluctuation,
            proposer_id: self.proposer_id@,
            signatures: self.signatures@.map_values(|s: ValidatorSignature| s@),
        }
    }
}

/// The bytes a block's hash is taken over: its fields in a fixed order,
/// integers as eight big-endian bytes, strings as length-framed UTF-8.
pub open spec fn block_preimage(
    id: u64,
    timestamp: u64,
    previous_hash: Seq<char>,
    syzygy: u64,
    coherence: u64,
    fluctuation: u64,
    proposer_id: Seq<char>,
) -> Seq<u8> {
    be64(id) + be64(timestamp) + framed_text(previous_hash) + be64(syzygy) + be64(coherence)
        + be64(fluctuation) + framed_text(proposer_id)
}

impl BlockView {
    /// The content hash of the block's fields (signatures excluded).
    pub open spec fn content_hash(self) -> Seq<char> {
        sha256_hex_of(
            block_preimage(
                self.id,
                self.timestamp,
                self.previous_hash,
                self.syzygy,
                self.coherence,
                self.fluctuation,
                self.proposer_id,
            ),
        )
    }

    /// The block with `sig` appended to its signatures.
    pub open spec fn with_signature(self, sig: SignatureView) -> BlockView {
        BlockView {
            id: self.id,
            timestamp: self.timestamp,
            previous_hash: self.previous_hash,
            current_hash: self.current_hash,
            syzygy: self.syzygy,
            coherence: self.coherence,
            fluctuation: self.fluctuation,
            proposer_id: self.proposer_id,
            signatures: self.signatures.push(sig),
        }
    }

    /// Coherence and fluctuation make up exactly one.
    pub open spec fn conserves(self) -> bool {
        self.coherence + self.fluctuation == SCORE_SCALE
    }

    /// A freshly made block: baseline shares, no signatures, and its own
    /// content hash.
    pub open spec fn is_fresh(
        self,
        id: u64,
        timestamp: u64,
        syzygy: u64,
        proposer_id: Seq<char>,
        previous_hash: Seq<char>,
    ) -> bool {
        &&& self.id == id
        &&& self.timestamp == timestamp
        &&& self.previous_hash == previous_hash
        &&& self.syzygy == syzygy
        &&& self.coherence == BASELINE_COHERENCE
        &&& self.fluctuation == BASELINE_FLUCTUATION
        &&& self.proposer_id == proposer_id
        &&& self.signatures.len() == 0
        &&& self.current_hash == self.content_hash()
    }
}

impl ValidatorSignature {
    /// A field-by-field copy.
    pub fn snapshot(&self) -> (r: ValidatorSignature)
        ensures
            r@ == self@,
    {
        ValidatorSignature {
            validator_id: self.validator_id.clone(),
            validator_syzygy: self.validator_syzygy,
            signature: self.signature.clone(),
            timestamp: self.timestamp,
        }
    }
}

impl HandoverBlock {
    /// A field-by-field copy, signatures included.
    pub fn snapshot(&self) -> (r: HandoverBlock)
        ensures
            r@ == self@,
    {
        let mut signatures: Vec<ValidatorSignature> = Vec::new();
        let mut i: usize = 0;
        while i < self.signatures.len()
            invariant
                0 <= i <= self.signatures@.len(),
                signatures@.len() == i,
                forall|j: int| 0 <= j < i ==> #[trigger] signatures@[j]@ == self.signatures@[j]@,
            decreases self.signatures@.len() - i,
        {
            signatures.push(self.signatures[i].snapshot());
            i = i + 1;
        }
        assert(signatures@.map_values(|s: ValidatorSignature| s@) =~= self.signatures@.map_values(
            |s: ValidatorSignature| s@,
        ));
        HandoverBlock {
            id: self.id,
            timestamp: self.timestamp,
            previous_hash: self.previous_hash.clone(),
            current_hash: self.current_hash.clone(),
            syzygy: self.syzygy,
            coherence: self.coherence,
            fluctuation: self.fluctuation,
            proposer_id: self.proposer_id.clone(),
            signatures,
        }
    }

    /// Makes a block stamped with the current time.
    pub fn new(id: u64, syzygy: u64, proposer_id: String, previous_hash: String) -> (r:
        HandoverBlock)
        ensures
            r@.is_fresh(id, r.timestamp, syzygy, proposer_id@, previous_hash@),
    {
        let timestamp = unix_seconds();
        HandoverBlock::with_timestamp(id, timestamp, syzygy, proposer_id, previous_hash)
    }

    /// Makes a block stamped with `timestamp`.
    pub fn with_timestamp(
        id: u64,
        timestamp: u64,
        syzygy: u64,
        proposer_id: String,
        previous_hash: String,
    ) -> (r: HandoverBlock)
        ensures
            r@.is_fresh(id, timestamp, syzygy, proposer_id@, previous_hash@),
    {
        let mut block = HandoverBlock {
            id,
            timestamp,
            previous_hash,
            current_hash: String::new(),
            syzygy,
            coherence: BASELINE_COHERENCE,
            fluctuation: BASELINE_FLUCTUATION,
            proposer_id,
            signatures: Vec::new(),
        };
        block.current_hash = block.compute_hash();
        assert(block@.signatures =~= Seq::<SignatureView>::empty());
        block
    }

    /// The bytes the block's hash is taken over.
    pub fn hash_preimage(&self) -> (r: Vec<u8>)
        ensures
            r@ == block_preimage(
                self.id,
                self.timestamp,
                self.previous_hash@,
                self.syzygy,
                self.coherence,
                self.fluctuation,
                self.proposer_id@,
            ),
    {
        let mut buf: Vec<u8> = Vec::new();
        push_u64(&mut buf, self.id);
        push_u64(&mut buf, self.timestamp);
        push_text(&mut buf, self.previous_hash.as_str());
        push_u64(&mut buf, self.syzygy);
        push_u64(&mut buf, self.coherence);
        push_u64(&mut buf, self.fluctuation);
        push_text(&mut buf, self.proposer_id.as_str());
        assert(buf@ =~= block_preimage(
            self.id,
            self.timestamp,
            self.previous_hash@,
            self.syzygy,
            self.coherence,
            self.fluctuation,
            self.proposer_id@,
        ));
        buf
    }

    /// The content hash of the block's fields.
    pub fn compute_hash(&self) -> (r: String)
        ensures
            r@ == self@.content_hash(),
    {
        let data = self.hash_preimage();
        sha256_hex(data.as_slice())
    }

    /// Whether coherence and fluctuation make up exactly one.
    pub fn verify_conservation(&self) -> (r: bool)
        ensures
            r == self@.conserves(),
    {
        self.coherence <= SCORE_SCALE && self.fluctuation == SCORE_SCALE - self.coherence
    }
}

} // verus!
