//! The two host workflows. The proving workflow takes the guest binary and
//! the index, derives the key pair, computes the expected value with the same
//! function the guest runs, executes and proves the guest, and serializes the
//! four artifacts. The verification workflow takes the persisted container
//! and verifying-key bytes, decodes both, and checks the proof. Both report
//! every fault to the caller; nothing is retried or swallowed.

use vstd::prelude::*;
use crate::artifacts::container_bytes_spec;
use crate::artifacts::decode_claim_spec;
use crate::artifacts::decode_container;
use crate::artifacts::decode_container_spec;
use crate::artifacts::decode_vk;
use crate::artifacts::decode_vk_spec;
use crate::artifacts::encode_container;
use crate::artifacts::encode_proof;
use crate::artifacts::encode_vk;
use crate::artifacts::lemma_claim_roundtrip;
use crate::artifacts::lemma_container_fields_roundtrip;
use crate::artifacts::lemma_vk_fields_roundtrip;
use crate::artifacts::proof_bytes_spec;
use crate::artifacts::DecodeFault;
use crate::artifacts::CONTAINER_TAG;
use crate::backend::prove_compressed;
use crate::backend::seal_value;
use crate::backend::setup;
use crate::backend::verify;
use crate::backend::verify_checks;
use crate::backend::VerifyFault;
use crate::bytes::u64_le_bytes;
use crate::channels::GuestInput;
use crate::channels::InputValue;
use crate::digest::digest;
use crate::fib::fib;
use crate::fib::fibonacci;
use crate::guest::claim_holds;
use crate::guest::committed_bytes;
use crate::guest::GuestFault;

verus! {

/// The persisted form of one proving run: the four independently loadable
/// artifacts, each a plain byte stream.
pub struct ArtifactBundle {
    /// Raw compressed-proof bytes.
    pub proof_bytes: Vec<u8>,
    /// The full-proof container: proof, public values and metadata.
    pub full_proof_bytes: Vec<u8>,
    /// The raw bytes the guest committed.
    pub public_values_bytes: Vec<u8>,
    /// The encoded verifying key.
    pub vk_bytes: Vec<u8>,
}

/// Any fault of the verification workflow: the artifacts failed to decode,
/// or the proof was rejected.
#[derive(Clone, Copy, PartialEq, Eq, Structural, Debug)]
pub enum PipelineFault {
    /// A byte stream failed to decode.
    Decode(DecodeFault),
    /// The decoded proof was rejected.
    Verification(VerifyFault),
}

/// The raw compressed-proof bytes of the honest proof of circuit `circuit`
/// attesting `pv`.
pub open spec fn honest_proof_bytes(circuit: u64, pv: Seq<u8>) -> Seq<u8> {
    u64_le_bytes(circuit) + u64_le_bytes(digest(pv)) + u64_le_bytes(
        seal_value(circuit, digest(pv)),
    )
}

/// The container bytes of the honest proof of circuit `circuit` attesting
/// `pv`.
pub open spec fn honest_container_bytes(circuit: u64, pv: Seq<u8>) -> Seq<u8> {
    seq![CONTAINER_TAG] + honest_proof_bytes(circuit, pv) + u64_le_bytes(pv.len() as u64) + pv
}

/// The proving workflow: derives the keys from the guest binary, computes
/// the expected value, runs the guest, compresses the proof, and encodes the
/// four artifacts. It succeeds for every index, because the expected value
/// is computed with the very function the guest checks against, and the
/// artifacts are exactly the honest encodings for the circuit and the
/// committed bytes.
pub fn run_prove(elf: &Vec<u8>, n: u32) -> (r: Result<ArtifactBundle, GuestFault>)
    ensures
        r is Ok,
        match r {
            Ok(b) => b.proof_bytes@ == honest_proof_bytes(digest(elf@), committed_bytes(n))
                && b.full_proof_bytes@ == honest_container_bytes(
                digest(elf@),
                committed_bytes(n),
            ) && b.public_values_bytes@ == committed_bytes(n) && b.vk_bytes@ == u64_le_bytes(
                digest(elf@),
            ),
            Err(f) => false,
        },
{
    let (pk, vk) = setup(elf);

    let fib_value = fibonacci(n);

    let mut stdin = GuestInput::new();
    stdin.write_u32(n);
    stdin.write_u64(fib_value);
    proof {
        assert(stdin.remaining() =~= seq![InputValue::U32(n), InputValue::U64(fib_value)]);
        assert(claim_holds(stdin.remaining()));
    }

    match prove_compressed(&pk, stdin) {
        Err(f) => {
            // The claim was just shown to hold, so the guest cannot abort.
            proof {
                assert(false);
            }
            Err(f)
        },
        Ok(p) => {
            let c = p.compressed();
            let proof_bytes = encode_proof(&c);
            let full_proof_bytes = encode_container(&p);
            let public_values_bytes = p.public_values();
            let vk_bytes = encode_vk(&vk);
            proof {
                assert(proof_bytes_spec(p.proof_spec()) =~= honest_proof_bytes(
                    digest(elf@),
                    committed_bytes(n),
                ));
                assert(container_bytes_spec(p) =~= honest_container_bytes(
                    digest(elf@),
                    committed_bytes(n),
                ));
            }
            Ok(ArtifactBundle { proof_bytes, full_proof_bytes, public_values_bytes, vk_bytes })
        },
    }
}

/// The outcome of the verification workflow on the given container and
/// verifying-key streams: a decode fault of either stream, a verification
/// fault of the decoded proof, or acceptance.
pub open spec fn run_verify_spec(full_proof: Seq<u8>, vk_stream: Seq<u8>) -> Result<
    (),
    PipelineFault,
> {
    match decode_container_spec(full_proof) {
        Err(f) => Err(PipelineFault::Decode(f)),
        Ok(t) => match decode_vk_spec(vk_stream) {
            Err(f) => Err(PipelineFault::Decode(f)),
            Ok(circuit) => match verify_checks(t.0, t.1, t.2, t.3, circuit) {
                Err(f) => Err(PipelineFault::Verification(f)),
                Ok(u) => Ok(()),
            },
        },
    }
}

/// The verification workflow: decodes the persisted container and verifying
/// key, then checks the proof. Pure pass/fail over the two byte streams.
pub fn run_verify(full_proof: &Vec<u8>, vk_stream: &Vec<u8>) -> (r: Result<(), PipelineFault>)
    ensures
        r == run_verify_spec(full_proof@, vk_stream@),
{
    let p = match decode_container(full_proof) {
        Ok(p) => p,
        Err(f) => {
            return Err(PipelineFault::Decode(f));
        },
    };
    let vk = match decode_vk(vk_stream) {
        Ok(vk) => vk,
        Err(f) => {
            return Err(PipelineFault::Decode(f));
        },
    };
    match verify(&p, &vk) {
        Ok(u) => Ok(()),
        Err(f) => Err(PipelineFault::Verification(f)),
    }
}

/// End to end: the artifacts the proving workflow writes for any guest
/// binary and any index are accepted by the verification workflow, and the
/// persisted public values decode back to the index and `F(n)`.
pub proof fn lemma_end_to_end(elf: Seq<u8>, n: u32)
    ensures
        run_verify_spec(
            honest_container_bytes(digest(elf), committed_bytes(n)),
            u64_le_bytes(digest(elf)),
        ) == Ok::<(), PipelineFault>(()),
        decode_claim_spec(committed_bytes(n)) == Ok::<(u32, u64), DecodeFault>(
            (n, fib(n as int) as u64),
        ),
{
    let pv = committed_bytes(n);
    lemma_container_fields_roundtrip(digest(elf), digest(pv), seal_value(digest(elf), digest(pv)),
        pv);
    lemma_vk_fields_roundtrip(digest(elf));
    lemma_claim_roundtrip(n, fib(n as int) as u64);
}

/// A persisted container checked against the verifying key of a different
/// setup run — a different circuit identity — is rejected as a key
/// mismatch, however well-formed the container is.
pub proof fn lemma_foreign_key_rejected_end_to_end(circuit: u64, other: u64, pv: Seq<u8>)
    requires
        circuit != other,
        pv.len() <= u64::MAX,
    ensures
        run_verify_spec(honest_container_bytes(circuit, pv), u64_le_bytes(other)) == Err::<
            (),
            PipelineFault,
        >(PipelineFault::Verification(VerifyFault::KeyMismatch)),
{
    lemma_container_fields_roundtrip(circuit, digest(pv), seal_value(circuit, digest(pv)), pv);
    lemma_vk_fields_roundtrip(other);
}

/// Altering any single byte of the public-values region of a persisted
/// honest container makes the verification workflow reject it: the
/// public-values binding no longer matches the attested bytes.
#[verifier::rlimit(100)]
pub proof fn lemma_tampered_container_rejected(circuit: u64, pv: Seq<u8>, s: Seq<u8>, i: int)
    requires
        pv.len() <= u64::MAX,
        s.len() == 33 + pv.len(),
        33 <= i < s.len(),
        s[i] != honest_container_bytes(circuit, pv)[i],
        forall|j: int| 0 <= j < s.len() && j != i ==> s[j] == honest_container_bytes(
            circuit,
            pv,
        )[j],
    ensures
        run_verify_spec(s, u64_le_bytes(circuit)) == Err::<(), PipelineFault>(
            PipelineFault::Verification(VerifyFault::PublicValuesMismatch),
        ),
{
    let h = honest_container_bytes(circuit, pv);
    assert(h.len() == 33 + pv.len());
    lemma_container_fields_roundtrip(circuit, digest(pv), seal_value(circuit, digest(pv)), pv);
    assert(s[0] == h[0]);
    assert(s.subrange(1, 9) =~= h.subrange(1, 9));
    assert(s.subrange(9, 17) =~= h.subrange(9, 17));
    assert(s.subrange(17, 25) =~= h.subrange(17, 25));
    assert(s.subrange(25, 33) =~= h.subrange(25, 33));
    let pv2 = s.skip(33);
    assert(h.skip(33) =~= pv);
    assert(pv2.len() == pv.len());
    assert(pv2[i - 33] == s[i] && pv[i - 33] == h[i]);
    assert(forall|k: int| 0 <= k < pv.len() && k != i - 33 ==> pv2[k] == pv[k]);
    crate::digest::lemma_digest_detects_byte_change(pv, pv2, i - 33);
    lemma_vk_fields_roundtrip(circuit);
    assert(decode_container_spec(s) == Ok::<(u64, u64, u64, Seq<u8>), DecodeFault>(
        (circuit, digest(pv), seal_value(circuit, digest(pv)), pv2),
    ));
}

/// Idempotence: two runs of the verification workflow on the same unmodified
/// artifact streams yield the same outcome.
pub proof fn lemma_verify_idempotent(
    r1: Result<(), PipelineFault>,
    r2: Result<(), PipelineFault>,
    full_proof: Seq<u8>,
    vk_stream: Seq<u8>,
)
    requires
        r1 == run_verify_spec(full_proof, vk_stream),
        r2 == run_verify_spec(full_proof, vk_stream),
    ensures
        r1 == r2,
{
}

} // verus!
