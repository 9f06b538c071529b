use fibonacci_prover::artifacts::decode_claim;
use fibonacci_prover::artifacts::decode_container;
use fibonacci_prover::artifacts::decode_proof;
use fibonacci_prover::artifacts::decode_vk;
use fibonacci_prover::artifacts::DecodeFault;
use fibonacci_prover::backend::setup;
use fibonacci_prover::backend::verify;
use fibonacci_prover::backend::VerifyFault;
use fibonacci_prover::digest::digest_bytes;
use fibonacci_prover::fib::fibonacci;
use fibonacci_prover::pipeline::run_prove;
use fibonacci_prover::pipeline::run_verify;
use fibonacci_prover::pipeline::PipelineFault;

fn sample_elf() -> Vec<u8> {
    vec![0x7f, b'E', b'L', b'F', 1, 2, 3, 4, 5, 6]
}

fn other_elf() -> Vec<u8> {
    vec![0x7f, b'E', b'L', b'F', 9, 9, 9, 9]
}

#[test]
fn digest_known_values() {
    assert_eq!(digest_bytes(&vec![]), 0);
    assert_eq!(digest_bytes(&vec![5]), 5);
    assert_eq!(digest_bytes(&vec![1, 2]), 257 + 2);
    assert_eq!(digest_bytes(&vec![1, 2, 3]), 259 * 257 + 3);
}

#[test]
fn prove_then_verify_end_to_end() {
    // n = 0, 1, 10, 20: prove, verify, and decode the public values back.
    for (n, expected) in [(0u32, 0u64), (1, 1), (10, 55), (20, 6765)] {
        let elf = sample_elf();
        let bundle = run_prove(&elf, n).expect("proving must succeed");
        assert_eq!(run_verify(&bundle.full_proof_bytes, &bundle.vk_bytes), Ok(()));
        assert_eq!(decode_claim(&bundle.public_values_bytes), Ok((n, expected)));
        assert_eq!(expected, fibonacci(n));
    }
}

#[test]
fn artifacts_round_trip() {
    let elf = sample_elf();
    let bundle = run_prove(&elf, 10).expect("proving must succeed");

    // Raw proof bytes decode back to the binding digests and the seal.
    let proof = decode_proof(&bundle.proof_bytes).expect("proof bytes must decode");
    assert_eq!(proof.vk_digest(), digest_bytes(&elf));
    assert_eq!(proof.pv_digest(), digest_bytes(&bundle.public_values_bytes));
    assert_eq!(proof.seal(), proof.vk_digest().wrapping_add(proof.pv_digest()));

    // Verifying-key bytes decode back to the circuit identity.
    let vk = decode_vk(&bundle.vk_bytes).expect("verifying key must decode");
    assert_eq!(vk.circuit_id(), digest_bytes(&elf));

    // Public-values bytes decode back to the committed claim.
    assert_eq!(decode_claim(&bundle.public_values_bytes), Ok((10, 55)));

    // The container embeds the proof bytes, the length, and the raw
    // public-values bytes after the metadata tag.
    assert_eq!(&bundle.full_proof_bytes[1..25], &bundle.proof_bytes[..]);
    assert_eq!(&bundle.full_proof_bytes[33..], &bundle.public_values_bytes[..]);
}

#[test]
fn tampered_public_values_are_rejected() {
    // Prove for n = 10 (value 55), then alter the persisted public values to
    // encode 56: verification must reject with a public-values mismatch.
    let elf = sample_elf();
    let bundle = run_prove(&elf, 10).expect("proving must succeed");
    let mut tampered = bundle.full_proof_bytes.clone();
    assert_eq!(tampered[37], 55);
    tampered[37] = 56;
    assert_eq!(
        run_verify(&tampered, &bundle.vk_bytes),
        Err(PipelineFault::Verification(VerifyFault::PublicValuesMismatch))
    );

    // The same byte flip in the raw public-values artifact now encodes 56.
    let mut pv = bundle.public_values_bytes.clone();
    pv[4] = 56;
    assert_eq!(decode_claim(&pv), Ok((10, 56)));
}

#[test]
fn tampered_seal_is_rejected() {
    let elf = sample_elf();
    let bundle = run_prove(&elf, 10).expect("proving must succeed");
    let mut tampered = bundle.full_proof_bytes.clone();
    tampered[17] = tampered[17].wrapping_add(1);
    assert_eq!(
        run_verify(&tampered, &bundle.vk_bytes),
        Err(PipelineFault::Verification(VerifyFault::ProofCheck))
    );
}

#[test]
fn foreign_verifying_key_is_rejected() {
    // A verifying key from a different setup run has a different circuit
    // identity; the proof must be rejected as a key mismatch.
    let elf = sample_elf();
    let bundle = run_prove(&elf, 10).expect("proving must succeed");
    let foreign = run_prove(&other_elf(), 10).expect("proving must succeed");
    assert_ne!(digest_bytes(&sample_elf()), digest_bytes(&other_elf()));
    assert_eq!(
        run_verify(&bundle.full_proof_bytes, &foreign.vk_bytes),
        Err(PipelineFault::Verification(VerifyFault::KeyMismatch))
    );
}

#[test]
fn in_memory_verify_matches_keys() {
    let elf = sample_elf();
    let (pk, vk) = setup(&elf);
    assert_eq!(pk.verifying_key().circuit_id(), vk.circuit_id());
    let (_, other_vk) = setup(&other_elf());
    let bundle = run_prove(&elf, 3).expect("proving must succeed");
    let container = decode_container(&bundle.full_proof_bytes).expect("container must decode");
    assert_eq!(verify(&container, &vk), Ok(()));
    assert_eq!(verify(&container, &other_vk), Err(VerifyFault::KeyMismatch));
}

#[test]
fn verification_is_idempotent() {
    let elf = sample_elf();
    let bundle = run_prove(&elf, 10).expect("proving must succeed");
    let first = run_verify(&bundle.full_proof_bytes, &bundle.vk_bytes);
    let second = run_verify(&bundle.full_proof_bytes, &bundle.vk_bytes);
    let third = run_verify(&bundle.full_proof_bytes, &bundle.vk_bytes);
    assert_eq!(first, Ok(()));
    assert_eq!(first, second);
    assert_eq!(second, third);
}

#[test]
fn truncated_container_fails_decoding() {
    let elf = sample_elf();
    let bundle = run_prove(&elf, 10).expect("proving must succeed");
    let mut cut = bundle.full_proof_bytes.clone();
    cut.truncate(20);
    assert_eq!(
        run_verify(&cut, &bundle.vk_bytes),
        Err(PipelineFault::Decode(DecodeFault::Truncated))
    );
    let mut short_body = bundle.full_proof_bytes.clone();
    short_body.truncate(40);
    assert_eq!(
        run_verify(&short_body, &bundle.vk_bytes),
        Err(PipelineFault::Decode(DecodeFault::Truncated))
    );
}

#[test]
fn trailing_bytes_fail_decoding() {
    let elf = sample_elf();
    let bundle = run_prove(&elf, 10).expect("proving must succeed");
    let mut long = bundle.full_proof_bytes.clone();
    long.push(0);
    assert_eq!(
        run_verify(&long, &bundle.vk_bytes),
        Err(PipelineFault::Decode(DecodeFault::TrailingBytes))
    );
}

#[test]
fn bad_tag_fails_decoding() {
    let elf = sample_elf();
    let bundle = run_prove(&elf, 10).expect("proving must succeed");
    let mut wrong = bundle.full_proof_bytes.clone();
    wrong[0] = 0xee;
    assert_eq!(
        run_verify(&wrong, &bundle.vk_bytes),
        Err(PipelineFault::Decode(DecodeFault::BadTag))
    );
}

#[test]
fn malformed_key_stream_fails_decoding() {
    let elf = sample_elf();
    let bundle = run_prove(&elf, 10).expect("proving must succeed");
    let short = vec![1, 2, 3];
    assert_eq!(
        run_verify(&bundle.full_proof_bytes, &short),
        Err(PipelineFault::Decode(DecodeFault::Truncated))
    );
    let mut long = bundle.vk_bytes.clone();
    long.push(0);
    assert_eq!(
        run_verify(&bundle.full_proof_bytes, &long),
        Err(PipelineFault::Decode(DecodeFault::TrailingBytes))
    );
}

#[test]
fn malformed_proof_stream_fails_decoding() {
    assert_eq!(decode_proof(&vec![0; 23]), Err(DecodeFault::Truncated));
    assert_eq!(decode_proof(&vec![0; 25]), Err(DecodeFault::TrailingBytes));
    assert_eq!(decode_claim(&vec![0; 11]), Err(DecodeFault::Truncated));
    assert_eq!(decode_claim(&vec![0; 13]), Err(DecodeFault::TrailingBytes));
}
