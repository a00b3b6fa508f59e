use garbage_candidate::fabricate::{
    check_collator_signature, check_fetch, collator_signature_payload,
    create_fake_candidate_commitments, fabricate, malicious_pov, ChainState, CodeLookup,
    FetchError,
};
use garbage_candidate::coin::{Coin, ConfigError, SuggestGarbageCandidateOptions};
use garbage_candidate::interceptor::{complete_interception, Interception, NoteCandidate, SecondRequest};
use garbage_candidate::types::{
    CandidateBackingMessage, CandidateDescriptor, CandidateReceipt, FromOrchestra, OverseerSignal,
    PersistedValidationData, PoV,
};

const EMPTY_BLAKE2_256: [u8; 32] = [
    0x0e, 0x57, 0x51, 0xc0, 0x26, 0xe5, 0x43, 0xb2, 0xe8, 0xab, 0x2e, 0xb0, 0x60, 0x99, 0xda, 0xa1,
    0xd1, 0xe5, 0xdf, 0x47, 0x77, 0x8f, 0x77, 0x87, 0xfa, 0xab, 0x45, 0xcd, 0xf1, 0x2f, 0xe3, 0xa8,
];

fn validation_data(parent_head: Vec<u8>) -> PersistedValidationData {
    PersistedValidationData {
        parent_head,
        relay_parent_number: 42,
        relay_parent_storage_root: [7u8; 32],
        max_pov_size: 5_000_000,
    }
}

fn honest_request() -> SecondRequest {
    let descriptor = CandidateDescriptor {
        para_id: 2000,
        relay_parent: [1u8; 32],
        collator: [2u8; 32],
        persisted_validation_data_hash: [3u8; 32],
        pov_hash: [4u8; 32],
        erasure_root: [5u8; 32],
        signature: [6u8; 64],
        para_head: [8u8; 32],
        validation_code_hash: [9u8; 32],
    };
    SecondRequest {
        relay_parent: [1u8; 32],
        candidate: CandidateReceipt { descriptor, commitments_hash: [10u8; 32] },
        validation_data: validation_data(vec![1, 2, 3]),
        pov: PoV { block_data: vec![11, 12, 13] },
    }
}

fn second_message(req: &SecondRequest) -> FromOrchestra {
    req.clone().into_message()
}

#[test]
fn options_accept_the_whole_range() {
    for p in 0..=100u8 {
        assert_eq!(SuggestGarbageCandidateOptions::new(p), Ok(SuggestGarbageCandidateOptions { percentage: p }));
    }
}

#[test]
fn options_reject_above_one_hundred() {
    assert_eq!(SuggestGarbageCandidateOptions::new(101), Err(ConfigError::InvalidPercentage(101)));
    assert_eq!(SuggestGarbageCandidateOptions::new(255), Err(ConfigError::InvalidPercentage(255)));
}

#[test]
fn interceptor_rejects_invalid_percentage() {
    assert!(matches!(NoteCandidate::new(101), Err(ConfigError::InvalidPercentage(101))));
    assert!(matches!(Coin::from_percentage(200), Err(ConfigError::InvalidPercentage(200))));
    assert_eq!(NoteCandidate::new(37).ok().map(|n| n.percentage()), Some(37));
}

#[test]
fn zero_percent_never_forges() {
    let coin = Coin::from_percentage(0).ok().unwrap();
    for _ in 0..10_000 {
        assert!(!coin.flip());
    }
}

#[test]
fn full_percent_always_forges() {
    let coin = Coin::from_percentage(100).ok().unwrap();
    for _ in 0..10_000 {
        assert!(coin.flip());
    }
}

#[test]
fn empirical_rate_matches_percentage() {
    let coin = Coin::from_percentage(30).ok().unwrap();
    let trials = 20_000u32;
    let mut heads = 0u32;
    for _ in 0..trials {
        if coin.flip() {
            heads += 1;
        }
    }
    let rate = heads as f64 / trials as f64;
    // five standard deviations of a binomial with p = 0.3
    let sd = (0.3f64 * 0.7 / trials as f64).sqrt();
    assert!((rate - 0.3).abs() < 5.0 * sd, "rate {}", rate);
}

#[test]
fn zero_percent_forwards_a_thousand_events_unchanged() {
    let interceptor = NoteCandidate::new(0).ok().unwrap();
    let req = honest_request();
    for _ in 0..1_000 {
        let msg = second_message(&req);
        assert_eq!(interceptor.intercept_incoming(msg.clone()), Interception::Forward(msg));
    }
}

#[test]
fn other_messages_and_signals_pass_through() {
    let interceptor = NoteCandidate::new(100).ok().unwrap();
    let other = FromOrchestra::Communication { msg: CandidateBackingMessage::Other(vec![1, 2]) };
    assert_eq!(interceptor.intercept_incoming(other.clone()), Interception::Forward(other));
    for signal in [
        OverseerSignal::ActiveLeaves([3u8; 32]),
        OverseerSignal::BlockFinalized([4u8; 32], 9),
        OverseerSignal::Conclude,
    ] {
        let msg = FromOrchestra::Signal(signal);
        assert_eq!(interceptor.intercept_incoming(msg.clone()), Interception::Forward(msg));
    }
}

#[test]
fn outgoing_messages_pass_through() {
    let interceptor = NoteCandidate::new(100).ok().unwrap();
    let msg = second_message(&honest_request());
    assert_eq!(interceptor.intercept_outgoing(msg.clone()), Some(msg));
}

#[test]
fn full_percent_forges_with_five_validators() {
    let interceptor = NoteCandidate::new(100).ok().unwrap();
    let req = honest_request();
    let input = second_message(&req);
    let req = match interceptor.intercept_incoming(input.clone()) {
        Interception::Forge(req) => req,
        other => panic!("expected a forging decision, got {:?}", other),
    };
    let chain = check_fetch(Some(5), CodeLookup::Found(vec![0xde, 0xad])).ok().unwrap();
    assert_eq!(chain, ChainState { n_validators: 5, validation_code: vec![0xde, 0xad] });
    let output = complete_interception(req.clone(), Ok((chain, [0xaa; 32])));
    assert_ne!(output, input);
    match output {
        FromOrchestra::Communication {
            msg: CandidateBackingMessage::Second(relay_parent, candidate, vd, pov),
        } => {
            assert_eq!(relay_parent, req.relay_parent);
            assert_eq!(candidate.descriptor.para_id, req.candidate.descriptor.para_id);
            assert_eq!(candidate.descriptor.relay_parent, req.relay_parent);
            assert_ne!(candidate.descriptor, req.candidate.descriptor);
            assert_ne!(pov, req.pov);
            assert_eq!(pov.block_data, "😈😈pov_looks_valid_to_me😈😈".as_bytes().to_vec());
            assert_ne!(candidate.descriptor.pov_hash, req.candidate.descriptor.pov_hash);
            assert_eq!(candidate.descriptor.erasure_root, [0xaa; 32]);
            assert_ne!(candidate.descriptor.erasure_root, req.candidate.descriptor.erasure_root);
            assert_eq!(vd, req.validation_data);
            assert!(check_collator_signature(&candidate.descriptor));
        },
        other => panic!("expected a seconding request, got {:?}", other),
    }
}

#[test]
fn code_not_found_forwards_the_incoming_request() {
    let req = honest_request();
    let input = second_message(&req);
    let outcome = check_fetch(Some(5), CodeLookup::NotFound);
    assert_eq!(outcome, Err(FetchError::CodeNotFound));
    let output = complete_interception(req, outcome.map(|c| (c, [0u8; 32])));
    assert_eq!(output, input);
}

#[test]
fn failed_code_query_forwards_the_incoming_request() {
    let req = honest_request();
    let input = second_message(&req);
    let outcome = check_fetch(Some(5), CodeLookup::Failed);
    assert_eq!(outcome, Err(FetchError::CodeQueryFailed));
    assert_eq!(complete_interception(req, outcome.map(|c| (c, [0u8; 32]))), input);
}

#[test]
fn no_validators_abandons_fabrication() {
    assert_eq!(check_fetch(Some(0), CodeLookup::Found(vec![1])), Err(FetchError::NoValidators));
}

#[test]
fn forged_signature_verifies_and_tampering_breaks_it() {
    let vd = validation_data(vec![]);
    let chain = ChainState { n_validators: 5, validation_code: vec![1, 2, 3] };
    let (receipt, _) = fabricate(&[1u8; 32], 2000, &vd, &chain, &[0xbb; 32]);
    assert!(check_collator_signature(&receipt.descriptor));
    let mut tampered = receipt.descriptor.clone();
    tampered.para_id = 2001;
    assert!(!check_collator_signature(&tampered));
    let mut wrong_key = receipt.descriptor.clone();
    wrong_key.collator = [0u8; 32];
    assert!(!check_collator_signature(&wrong_key));
}

#[test]
fn fabrication_is_deterministic_but_for_the_key() {
    let vd = validation_data(vec![4, 5, 6]);
    let chain = ChainState { n_validators: 5, validation_code: vec![1, 2, 3] };
    let (a, pov_a) = fabricate(&[1u8; 32], 7, &vd, &chain, &[0xcc; 32]);
    let (b, pov_b) = fabricate(&[1u8; 32], 7, &vd, &chain, &[0xcc; 32]);
    assert_eq!(pov_a, pov_b);
    assert_eq!(a.commitments_hash, b.commitments_hash);
    assert_ne!(a.descriptor.collator, b.descriptor.collator);
    let mut a_desc = a.descriptor.clone();
    a_desc.collator = b.descriptor.collator;
    a_desc.signature = b.descriptor.signature;
    assert_eq!(a_desc, b.descriptor);
    assert!(check_collator_signature(&a.descriptor));
    assert!(check_collator_signature(&b.descriptor));
}

#[test]
fn forged_hashes_are_blake2_of_their_inputs() {
    let vd = validation_data(vec![]);
    let chain = ChainState { n_validators: 5, validation_code: vec![] };
    let (receipt, _) = fabricate(&[1u8; 32], 7, &vd, &chain, &[0xcc; 32]);
    assert_eq!(receipt.descriptor.para_head, EMPTY_BLAKE2_256);
    assert_eq!(receipt.descriptor.validation_code_hash, EMPTY_BLAKE2_256);
    assert_ne!(receipt.descriptor.pov_hash, [0u8; 32]);
    assert_ne!(receipt.descriptor.persisted_validation_data_hash, [0u8; 32]);
    assert_ne!(receipt.commitments_hash, [0u8; 32]);
    assert_ne!(receipt.descriptor.pov_hash, receipt.commitments_hash);
}

#[test]
fn signature_payload_layout() {
    let payload = collator_signature_payload(&[1u8; 32], 0x0403_0201, &[2u8; 32], &[3u8; 32], &[4u8; 32]);
    let mut expected = vec![1u8; 32];
    expected.extend_from_slice(&[1, 2, 3, 4]);
    expected.extend_from_slice(&[2u8; 32]);
    expected.extend_from_slice(&[3u8; 32]);
    expected.extend_from_slice(&[4u8; 32]);
    assert_eq!(payload.len(), 132);
    assert_eq!(payload, expected);
}

#[test]
fn poison_payload_is_fixed() {
    assert_eq!(malicious_pov().block_data, "😈😈pov_looks_valid_to_me😈😈".as_bytes().to_vec());
}

#[test]
fn fake_commitments_follow_validation_data() {
    let c = create_fake_candidate_commitments(&validation_data(vec![9, 9]));
    assert_eq!(c.head_data, vec![9, 9]);
    assert_eq!(c.processed_downward_messages, 0);
    assert_eq!(c.hrmp_watermark, 42);
}

#[test]
fn failed_validators_query_forwards_the_incoming_request() {
    let req = honest_request();
    let input = second_message(&req);
    let outcome = check_fetch(None, CodeLookup::Found(vec![1, 2]));
    assert_eq!(outcome, Err(FetchError::ValidatorsQueryFailed));
    assert_eq!(complete_interception(req, outcome.map(|c| (c, [0u8; 32]))), input);
}

#[test]
fn failed_validators_query_takes_precedence() {
    assert_eq!(check_fetch(None, CodeLookup::NotFound), Err(FetchError::ValidatorsQueryFailed));
    assert_eq!(check_fetch(Some(0), CodeLookup::Failed), Err(FetchError::CodeQueryFailed));
    assert_eq!(check_fetch(Some(0), CodeLookup::NotFound), Err(FetchError::CodeNotFound));
}
