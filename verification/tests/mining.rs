use poscan_miner::coordinator::{BlockTemplateMetadata, Coordinator, Phase, PoscanData};
use poscan_miner::hashes::{Difficulty, Hash256};
use poscan_miner::pow::{calc_hash, meets_difficulty, ComputeInput, Seal};
use poscan_miner::queue::{CandidateQueue, MiningProposal};
use sha3::Digest;

fn h256(bytes: [u8; 32]) -> Hash256 {
    Hash256::from_bytes(bytes.to_vec())
}

fn sha3_direct(input: &[u8]) -> Vec<u8> {
    sha3::Sha3_256::digest(input).to_vec()
}

fn metadata(difficulty: Difficulty, pre_hash: [u8; 32]) -> BlockTemplateMetadata {
    BlockTemplateMetadata {
        difficulty,
        pre_hash: h256(pre_hash),
    }
}

/// The work bytes the evaluator should derive, built independently with
/// the sha3 crate: sha3(difficulty_le ++ pre_hash ++ sha3(pre_hash ++ obj_hash)).
fn expected_work(d: &Difficulty, pre_hash: &[u8; 32], obj_hash: &[u8; 32]) -> Vec<u8> {
    let mut pair = pre_hash.to_vec();
    pair.extend_from_slice(obj_hash);
    let poscan = sha3_direct(&pair);
    let mut input = poscan_miner::codec::difficulty_bytes(d);
    input.extend_from_slice(pre_hash);
    input.extend_from_slice(&poscan);
    sha3_direct(&input)
}

#[test]
fn calc_hash_is_deterministic_and_is_the_digest() {
    let pre = h256([1u8; 32]);
    let obj = h256([2u8; 32]);
    let r1 = calc_hash(&pre, &obj);
    let r2 = calc_hash(&pre, &obj);
    assert_eq!(r1.bytes, r2.bytes);
    let mut concat = [1u8; 32].to_vec();
    concat.extend_from_slice(&[2u8; 32]);
    assert_eq!(r1.bytes, sha3_direct(&concat));
}

#[test]
fn compute_is_deterministic_and_binds_its_inputs() {
    let d = Difficulty::new(5, 0, 0, 0);
    let input = ComputeInput {
        difficulty: d,
        pre_hash: h256([3u8; 32]),
        poscan_hash: h256([4u8; 32]),
    };
    let s1 = input.compute();
    let s2 = input.compute();
    assert_eq!(s1.work.bytes, s2.work.bytes);
    assert_eq!(s1.difficulty, d);

    let mut encoded = poscan_miner::codec::difficulty_bytes(&d);
    encoded.extend_from_slice(&[3u8; 32]);
    encoded.extend_from_slice(&[4u8; 32]);
    assert_eq!(s1.work.bytes, sha3_direct(&encoded));

    // A different pre-hash or difficulty yields different work.
    let other_pre = ComputeInput {
        difficulty: d,
        pre_hash: h256([9u8; 32]),
        poscan_hash: h256([4u8; 32]),
    };
    assert_ne!(other_pre.compute().work.bytes, s1.work.bytes);
    let other_diff = ComputeInput {
        difficulty: Difficulty::new(6, 0, 0, 0),
        pre_hash: h256([3u8; 32]),
        poscan_hash: h256([4u8; 32]),
    };
    assert_ne!(other_diff.compute().work.bytes, s1.work.bytes);
}

#[test]
fn meets_difficulty_matches_the_overflow_rule() {
    // Zero work times anything fits in 256 bits.
    let zero = h256([0u8; 32]);
    let max_d = Difficulty::new(u64::MAX, u64::MAX, u64::MAX, u64::MAX);
    assert!(meets_difficulty(&zero, &max_d));

    // The largest work value still fits when multiplied by one...
    let all_ones = h256([0xffu8; 32]);
    assert!(meets_difficulty(&all_ones, &Difficulty::new(1, 0, 0, 0)));
    // ...but not when multiplied by two.
    assert!(!meets_difficulty(&all_ones, &Difficulty::new(2, 0, 0, 0)));

    // Cross-check against the arithmetic crate itself.
    let (_, overflowed) =
        primitive_types::U256::MAX.overflowing_mul(primitive_types::U256::from(2u32));
    assert!(overflowed);
}

#[test]
fn meets_difficulty_is_exact_at_the_boundary() {
    let two = Difficulty::new(2, 0, 0, 0);

    // Work of exactly 2^255: times two is exactly 2^256, which no longer
    // fits in 256 bits.
    let mut high = [0u8; 32];
    high[0] = 0x80;
    assert!(!meets_difficulty(&h256(high), &two));

    // One less: times two is 2^256 - 2, which still fits.
    let mut below = [0xffu8; 32];
    below[0] = 0x7f;
    assert!(meets_difficulty(&h256(below), &two));
}

#[test]
fn acceptance_is_not_monotonic_in_difficulty() {
    // Work accepted at difficulty one fails at the harder difficulty two.
    let all_ones = h256([0xffu8; 32]);
    let d1 = Difficulty::new(1, 0, 0, 0);
    let d2 = Difficulty::new(2, 0, 0, 0);
    assert!(meets_difficulty(&all_ones, &d1));
    assert!(!meets_difficulty(&all_ones, &d2));
}

#[test]
fn difficulty_bytes_layout_is_little_endian() {
    let d = Difficulty::new(0x0102030405060708, 0, 0, 0xa1a2a3a4a5a6a7a8);
    let mut expected = vec![8u8, 7, 6, 5, 4, 3, 2, 1];
    expected.extend_from_slice(&[0u8; 16]);
    expected.extend_from_slice(&[0xa8u8, 0xa7, 0xa6, 0xa5, 0xa4, 0xa3, 0xa2, 0xa1]);
    assert_eq!(poscan_miner::codec::difficulty_bytes(&d), expected);
}

#[test]
fn difficulty_bytes_match_the_arithmetic_crate() {
    let d = Difficulty::new(0xdeadbeef, 17, 0, u64::MAX);
    let u = primitive_types::U256([0xdeadbeef, 17, 0, u64::MAX]);
    assert_eq!(
        poscan_miner::codec::difficulty_bytes(&d),
        u.to_little_endian().to_vec()
    );
}

#[test]
fn seal_encoding_is_work_then_difficulty() {
    let d = Difficulty::new(7, 0, 0, 0);
    let seal = Seal {
        work: h256([0xabu8; 32]),
        difficulty: d,
    };
    let mut expected = [0xabu8; 32].to_vec();
    expected.extend_from_slice(&poscan_miner::codec::difficulty_bytes(&d));
    assert_eq!(seal.encode(), expected);
}

#[test]
fn successful_mining_submits_exactly_once() {
    // Difficulty one accepts every work value.
    let d = Difficulty::new(1, 0, 0, 0);
    let pre = [9u8; 32];
    let meta = metadata(d, pre);
    let obj = vec![1u8, 2, 3];
    let obj_hash = [0x11u8; 32];

    let mut queue = CandidateQueue::new();
    queue.enqueue(MiningProposal {
        pre_obj: obj.clone(),
    });

    let mut coordinator = Coordinator::new();
    let mut submissions: Vec<(Vec<u8>, PoscanData)> = Vec::new();

    assert!(matches!(
        coordinator.next_phase(true),
        Phase::AwaitingProposal
    ));
    let proposal = queue.dequeue().expect("one proposal queued");
    // The scanning subsystem's hashing, mocked: one hash.
    coordinator.stage(proposal, vec![h256(obj_hash)]);
    assert!(matches!(coordinator.next_phase(true), Phase::Staged));
    if let Some((seal, payload)) = coordinator.evaluate(&meta) {
        submissions.push((seal.encode(), payload));
    }

    assert_eq!(submissions.len(), 1);
    let (seal_bytes, payload) = &submissions[0];
    let work = expected_work(&d, &pre, &obj_hash);
    let mut expected_seal = work.clone();
    expected_seal.extend_from_slice(&poscan_miner::codec::difficulty_bytes(&d));
    assert_eq!(seal_bytes, &expected_seal);
    assert_eq!(payload.hashes.len(), 1);
    assert_eq!(payload.hashes[0].bytes, obj_hash.to_vec());
    assert_eq!(payload.obj, obj);
    assert!(!coordinator.has_staged());
}

#[test]
fn rejected_proposal_then_success_submits_only_the_second() {
    // Difficulty two accepts exactly the work values whose top bit is
    // clear. Search for a pre-hash under which the first candidate's work
    // has the top bit set and the second's clear; the works are fixed
    // functions of the inputs, so the search is deterministic.
    let d = Difficulty::new(2, 0, 0, 0);
    let hash_a = [0x21u8; 32];
    let hash_b = [0x42u8; 32];
    let mut found: Option<[u8; 32]> = None;
    for b in 0u8..=255 {
        let pre = [b; 32];
        let work_a = expected_work(&d, &pre, &hash_a);
        let work_b = expected_work(&d, &pre, &hash_b);
        if work_a[0] >= 0x80 && work_b[0] < 0x80 {
            found = Some(pre);
            break;
        }
    }
    let pre = found.expect("some pre-hash splits the two candidates");
    let meta = metadata(d, pre);

    let mut queue = CandidateQueue::new();
    queue.enqueue(MiningProposal {
        pre_obj: vec![10u8],
    });
    queue.enqueue(MiningProposal {
        pre_obj: vec![20u8],
    });

    let mut coordinator = Coordinator::new();
    let mut submissions: Vec<PoscanData> = Vec::new();

    // First candidate: staged, evaluated, rejected, dropped.
    let first = queue.dequeue().expect("first proposal");
    coordinator.stage(first, vec![h256(hash_a)]);
    if let Some((_, payload)) = coordinator.evaluate(&meta) {
        submissions.push(payload);
    }
    assert_eq!(submissions.len(), 0);
    assert!(!coordinator.has_staged());

    // Second candidate: staged, evaluated, accepted.
    let second = queue.dequeue().expect("second proposal");
    coordinator.stage(second, vec![h256(hash_b)]);
    if let Some((_, payload)) = coordinator.evaluate(&meta) {
        submissions.push(payload);
    }
    assert_eq!(submissions.len(), 1);
    assert_eq!(submissions[0].obj, vec![20u8]);
    assert_eq!(submissions[0].hashes[0].bytes, hash_b.to_vec());

    // The rejected proposal was not requeued.
    assert_eq!(queue.len(), 0);
    assert!(queue.dequeue().is_none());
}

#[test]
fn empty_object_hash_set_stages_nothing() {
    let mut queue = CandidateQueue::new();
    queue.enqueue(MiningProposal {
        pre_obj: vec![5u8],
    });
    queue.enqueue(MiningProposal {
        pre_obj: vec![6u8],
    });

    let mut coordinator = Coordinator::new();
    let proposal = queue.dequeue().expect("first proposal");
    // The object yielded no hashes: dropped silently, nothing staged.
    coordinator.stage(proposal, Vec::new());
    assert!(!coordinator.has_staged());
    assert!(matches!(
        coordinator.next_phase(true),
        Phase::AwaitingProposal
    ));

    // The loop proceeds to the next proposal without error.
    let next = queue.dequeue().expect("second proposal");
    assert_eq!(next.pre_obj, vec![6u8]);
}

#[test]
fn stale_metadata_is_never_sealed() {
    let d = Difficulty::new(1, 0, 0, 0);
    let old_pre = [1u8; 32];
    let new_pre = [2u8; 32];
    let obj_hash = [0x33u8; 32];

    let mut coordinator = Coordinator::new();
    coordinator.stage(
        MiningProposal {
            pre_obj: vec![7u8],
        },
        vec![h256(obj_hash)],
    );

    // The template changed after staging; evaluation sees only the new one.
    let meta = metadata(d, new_pre);
    let (seal, _) = coordinator
        .evaluate(&meta)
        .expect("difficulty one accepts everything");
    assert_eq!(seal.work.bytes, expected_work(&d, &new_pre, &obj_hash));
    assert_ne!(seal.work.bytes, expected_work(&d, &old_pre, &obj_hash));
}

#[test]
fn no_second_submission_without_restaging() {
    let d = Difficulty::new(1, 0, 0, 0);
    let meta = metadata(d, [4u8; 32]);

    let mut coordinator = Coordinator::new();
    let mut submissions: usize = 0;

    coordinator.stage(
        MiningProposal {
            pre_obj: vec![1u8],
        },
        vec![h256([0x55u8; 32])],
    );
    if coordinator.evaluate(&meta).is_some() {
        submissions += 1;
    }
    // The staged candidate was consumed: no way to submit it again.
    assert_eq!(submissions, 1);
    assert!(!coordinator.has_staged());
    assert!(matches!(
        coordinator.next_phase(true),
        Phase::AwaitingProposal
    ));

    // Only a fresh staging allows another submission.
    coordinator.stage(
        MiningProposal {
            pre_obj: vec![2u8],
        },
        vec![h256([0x66u8; 32])],
    );
    if coordinator.evaluate(&meta).is_some() {
        submissions += 1;
    }
    assert_eq!(submissions, 2);
}

#[test]
fn missing_metadata_means_waiting() {
    let coordinator = Coordinator::new();
    assert!(matches!(
        coordinator.next_phase(false),
        Phase::AwaitingMetadata
    ));
}
