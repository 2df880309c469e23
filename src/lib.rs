//! A weighted-majority block-confirmation engine.
//!
//! Validators register with an eligibility score and a stake; an eligible
//! validator proposes hash-linked blocks; eligible validators approve them; a
//! block is confirmed once the stake of its distinct eligible signers reaches
//! two thirds of the total eligible stake. One proposal is pending at a
//! time, so every confirmed block links to the one before it and a
//! confirmed id never appears among the pending blocks.
//!
//! Scores and the coherence / fluctuation pair are fixed-point integers in
//! parts per million (`SCORE_SCALE` stands for 1).

pub mod block;
mod clock;
pub mod consensus;
pub mod encoding;
pub mod laws;
pub mod node;
pub mod validator;

pub use block::{HandoverBlock, ValidatorSignature};
pub use consensus::{ConsensusError, LatticaConsensus};
pub use encoding::SCORE_SCALE;
pub use node::NodeType;
pub use validator::Validator;
