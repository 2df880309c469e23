use lattica::{ConsensusError, HandoverBlock, LatticaConsensus, NodeType, SCORE_SCALE};

fn three_validators(stakes: [u64; 3]) -> LatticaConsensus {
    let mut consensus = LatticaConsensus::new(3, 980_000);
    consensus.register_validator("v1".to_string(), 990_000, stakes[0]).unwrap();
    consensus.register_validator("v2".to_string(), 990_000, stakes[1]).unwrap();
    consensus.register_validator("v3".to_string(), 980_000, stakes[2]).unwrap();
    consensus
}

#[test]
fn test_validator_registration() {
    let mut consensus = LatticaConsensus::new(3, 980_000);

    // Valid registration
    assert!(consensus.register_validator("v1".to_string(), 990_000, 100).is_ok());

    // Invalid registration (low syzygy)
    assert!(consensus.register_validator("v2".to_string(), 950_000, 100).is_err());
}

#[test]
fn test_block_proposal_and_consensus() {
    let mut consensus = LatticaConsensus::new(3, 980_000);

    consensus.register_validator("v1".to_string(), 990_000, 100).unwrap();
    consensus.register_validator("v2".to_string(), 990_000, 100).unwrap();
    consensus.register_validator("v3".to_string(), 980_000, 100).unwrap();

    let block = consensus.propose_block(980_000, "v1".to_string()).unwrap();
    assert_eq!(block.id, 1);
    assert!(block.verify_conservation());

    consensus.vote(1, "v1".to_string(), true).unwrap();
    consensus.vote(1, "v2".to_string(), true).unwrap();
    consensus.vote(1, "v3".to_string(), true).unwrap();

    let reached = consensus.check_consensus(1).unwrap();
    assert!(reached);
    assert_eq!(consensus.confirmed_blocks().len(), 1);
}

#[test]
fn test_network_syzygy() {
    let mut consensus = LatticaConsensus::new(3, 980_000);

    consensus.register_validator("v1".to_string(), 990_000, 100).unwrap();
    consensus.register_validator("v2".to_string(), 980_000, 100).unwrap();
    consensus.register_validator("v3".to_string(), 990_000, 100).unwrap();

    let net_syzygy = consensus.network_syzygy() as f64 / SCORE_SCALE as f64;
    assert!((net_syzygy - 0.9867).abs() < 0.01);
}

#[test]
fn network_syzygy_is_the_rounded_down_mean() {
    let consensus = three_validators([100, 100, 100]);
    assert_eq!(consensus.network_syzygy(), 986_666);
}

#[test]
fn network_syzygy_of_empty_registry_is_zero() {
    let consensus = LatticaConsensus::new(3, 980_000);
    assert_eq!(consensus.network_syzygy(), 0);
}

#[test]
fn low_score_registration_is_rejected_with_its_kind() {
    let mut consensus = LatticaConsensus::new(3, 980_000);
    assert_eq!(
        consensus.register_validator("v2".to_string(), 950_000, 100),
        Err(ConsensusError::RegistrationRejected)
    );
    assert_eq!(consensus.network_syzygy(), 0);
}

#[test]
fn registration_at_threshold_is_accepted() {
    let mut consensus = LatticaConsensus::new(1, 980_000);
    assert_eq!(consensus.register_validator("v".to_string(), 980_000, 1), Ok(()));
}

#[test]
fn reregistration_replaces_the_entry() {
    let mut consensus = LatticaConsensus::new(1, 980_000);
    consensus.register_validator("v1".to_string(), 990_000, 100).unwrap();
    consensus.register_validator("v1".to_string(), 980_000, 100).unwrap();
    consensus.register_validator("v2".to_string(), 990_000, 100).unwrap();
    // Two entries, not three: (980000 + 990000) / 2.
    assert_eq!(consensus.network_syzygy(), 985_000);
}

#[test]
fn first_proposal_links_to_genesis() {
    let mut consensus = three_validators([100, 100, 100]);
    let block = consensus.propose_block(980_000, "v1".to_string()).unwrap();
    assert_eq!(block.previous_hash, "genesis");
    assert_eq!(block.proposer_id, "v1");
    assert_eq!(block.coherence, 860_000);
    assert_eq!(block.fluctuation, 140_000);
    assert!(block.signatures.is_empty());
    assert_eq!(block.current_hash, block.compute_hash());
    assert_eq!(consensus.pending_blocks().len(), 1);
}

#[test]
fn confirmed_chain_is_hash_linked() {
    let mut consensus = three_validators([100, 100, 100]);
    consensus.propose_block_at(980_000, "v1".to_string(), 10).unwrap();
    for v in ["v1", "v2", "v3"] {
        consensus.vote_at(1, v.to_string(), true, 11).unwrap();
    }
    assert_eq!(consensus.check_consensus(1), Ok(true));
    let second = consensus.propose_block_at(990_000, "v2".to_string(), 12).unwrap();
    assert_eq!(second.id, 2);
    assert_eq!(second.previous_hash, consensus.confirmed_blocks()[0].current_hash);
    for v in ["v1", "v2"] {
        consensus.vote_at(2, v.to_string(), true, 13).unwrap();
    }
    assert_eq!(consensus.check_consensus(2), Ok(true));
    let chain = consensus.confirmed_blocks();
    assert_eq!(chain.len(), 2);
    assert_eq!(chain[0].previous_hash, "genesis");
    assert_eq!(chain[1].previous_hash, chain[0].current_hash);
    assert!(chain.iter().all(|b| b.verify_conservation()));
}

#[test]
fn confirmed_block_leaves_pending() {
    let mut consensus = three_validators([100, 100, 100]);
    consensus.propose_block(980_000, "v1".to_string()).unwrap();
    for v in ["v1", "v2", "v3"] {
        consensus.vote(1, v.to_string(), true).unwrap();
    }
    assert_eq!(consensus.check_consensus(1), Ok(true));
    assert!(consensus.pending_blocks().is_empty());
    assert_eq!(consensus.check_consensus(1), Err(ConsensusError::BlockNotFound));
    let next = consensus.propose_block(980_000, "v1".to_string()).unwrap();
    assert_eq!(next.id, 2);
}

#[test]
fn too_few_validators_never_confirm() {
    let mut consensus = LatticaConsensus::new(3, 980_000);
    consensus.register_validator("v1".to_string(), 990_000, 100).unwrap();
    consensus.register_validator("v2".to_string(), 990_000, 100).unwrap();
    consensus.propose_block(980_000, "v1".to_string()).unwrap();
    assert_eq!(consensus.check_consensus(1), Ok(false));
    consensus.vote(1, "v1".to_string(), true).unwrap();
    consensus.vote(1, "v2".to_string(), true).unwrap();
    assert_eq!(consensus.check_consensus(1), Ok(false));
    assert_eq!(consensus.pending_blocks().len(), 1);
    assert!(consensus.confirmed_blocks().is_empty());
}

#[test]
fn repeated_approval_counts_once() {
    let mut consensus = three_validators([100, 100, 100]);
    consensus.propose_block(980_000, "v1".to_string()).unwrap();
    consensus.vote(1, "v1".to_string(), true).unwrap();
    consensus.vote(1, "v1".to_string(), true).unwrap();
    assert_eq!(consensus.pending_blocks()[0].signatures.len(), 2);
    // 100 of 300 counted, below 200.
    assert_eq!(consensus.check_consensus(1), Ok(false));
    consensus.vote(1, "v2".to_string(), true).unwrap();
    // 200 reaches floor(2 * 300 / 3).
    assert_eq!(consensus.check_consensus(1), Ok(true));
}

#[test]
fn two_thirds_threshold_rounds_down() {
    // Total stake 5: the threshold is floor(10 / 3) = 3.
    let mut consensus = three_validators([2, 2, 1]);
    consensus.propose_block(980_000, "v1".to_string()).unwrap();
    consensus.vote(1, "v1".to_string(), true).unwrap();
    assert_eq!(consensus.check_consensus(1), Ok(false));
    consensus.vote(1, "v3".to_string(), true).unwrap();
    assert_eq!(consensus.check_consensus(1), Ok(true));
}

#[test]
fn rejection_records_nothing() {
    let mut consensus = three_validators([100, 100, 100]);
    consensus.propose_block(980_000, "v1".to_string()).unwrap();
    assert_eq!(consensus.vote(1, "v2".to_string(), false), Ok(()));
    assert!(consensus.pending_blocks()[0].signatures.is_empty());
}

#[test]
fn approval_records_a_signature() {
    let mut consensus = three_validators([100, 100, 100]);
    consensus.propose_block(980_000, "v1".to_string()).unwrap();
    consensus.vote_at(1, "v3".to_string(), true, 77).unwrap();
    let sig = &consensus.pending_blocks()[0].signatures[0];
    assert_eq!(sig.validator_id, "v3");
    assert_eq!(sig.validator_syzygy, 980_000);
    assert_eq!(sig.signature, "sig_v3");
    assert_eq!(sig.timestamp, 77);
}

#[test]
fn unknown_proposer_is_refused() {
    let mut consensus = three_validators([100, 100, 100]);
    assert_eq!(
        consensus.propose_block(980_000, "v9".to_string()).err(),
        Some(ConsensusError::ProposerUnregistered)
    );
    assert!(consensus.pending_blocks().is_empty());
}

#[test]
fn vote_errors() {
    let mut consensus = three_validators([100, 100, 100]);
    assert_eq!(consensus.vote(1, "v1".to_string(), true), Err(ConsensusError::BlockNotFound));
    consensus.propose_block(980_000, "v1".to_string()).unwrap();
    assert_eq!(consensus.vote(1, "v9".to_string(), true), Err(ConsensusError::ValidatorNotFound));
    assert_eq!(consensus.vote(2, "v1".to_string(), true), Err(ConsensusError::BlockNotFound));
    assert!(consensus.pending_blocks()[0].signatures.is_empty());
}

#[test]
fn check_of_unknown_block_is_refused() {
    let mut consensus = three_validators([100, 100, 100]);
    assert_eq!(consensus.check_consensus(5), Err(ConsensusError::BlockNotFound));
}

#[test]
fn rotation_keeps_validators_at_threshold() {
    let mut consensus = three_validators([100, 100, 100]);
    consensus.rotate_validators();
    consensus.propose_block(980_000, "v3".to_string()).unwrap();
    consensus.vote(1, "v3".to_string(), true).unwrap();
    consensus.vote(1, "v2".to_string(), true).unwrap();
    assert_eq!(consensus.check_consensus(1), Ok(true));
}

#[test]
fn block_hash_covers_fixed_field_encoding() {
    let block =
        HandoverBlock::with_timestamp(1, 1000, 980_000, "v1".to_string(), "genesis".to_string());
    let expected: Vec<u8> = vec![
        0, 0, 0, 0, 0, 0, 0, 1, 0, 0, 0, 0, 0, 0, 3, 232, 0, 0, 0, 0, 0, 0, 0, 7, 103, 101, 110,
        101, 115, 105, 115, 0, 0, 0, 0, 0, 14, 244, 32, 0, 0, 0, 0, 0, 13, 31, 96, 0, 0, 0, 0, 0,
        2, 34, 224, 0, 0, 0, 0, 0, 0, 0, 2, 118, 49,
    ];
    assert_eq!(block.hash_preimage(), expected);
    assert_eq!(
        block.current_hash,
        "27c0272e2f438d69206754fd17c0c2c62dc06a120945d201ab0b53d8cef1dc33"
    );
}

#[test]
fn conservation_check_detects_imbalance() {
    let mut block =
        HandoverBlock::with_timestamp(1, 0, 980_000, "v1".to_string(), "genesis".to_string());
    assert!(block.verify_conservation());
    block.fluctuation = 140_001;
    assert!(!block.verify_conservation());
    block.coherence = 2_000_000;
    assert!(!block.verify_conservation());
}

#[test]
fn snapshot_copies_every_field() {
    let mut consensus = three_validators([100, 100, 100]);
    consensus.propose_block_at(980_000, "v1".to_string(), 5).unwrap();
    consensus.vote_at(1, "v2".to_string(), true, 6).unwrap();
    let original = &consensus.pending_blocks()[0];
    let copy = original.snapshot();
    assert_eq!(copy.current_hash, original.current_hash);
    assert_eq!(copy.signatures.len(), 1);
    assert_eq!(copy.signatures[0].signature, "sig_v2");
}

#[test]
fn node_types_compare_by_variant() {
    assert_eq!(NodeType::Drone, NodeType::Drone);
    assert_ne!(NodeType::Drone, NodeType::BaseStation);
}

#[test]
fn second_proposal_waits_for_the_first() {
    let mut consensus = LatticaConsensus::new(1, 0);
    consensus.register_validator("v1".to_string(), 0, 100).unwrap();
    let first = consensus.propose_block(0, "v1".to_string()).unwrap();
    assert_eq!(
        consensus.propose_block(0, "v1".to_string()).err(),
        Some(ConsensusError::ProposalPending)
    );
    assert_eq!(consensus.pending_blocks().len(), 1);
    consensus.vote(1, "v1".to_string(), true).unwrap();
    assert_eq!(consensus.check_consensus(1), Ok(true));
    assert!(consensus.pending_blocks().is_empty());
    let second = consensus.propose_block(0, "v1".to_string()).unwrap();
    assert_eq!(second.id, 2);
    assert_eq!(second.previous_hash, first.current_hash);
}
