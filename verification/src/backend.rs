//! The proving backend, modeled deterministically: key setup from the guest
//! binary, execution with witness capture into a base proof, compression to a
//! fixed-size proof, and verification. The cryptographic internals of a real
//! backend are out of scope; what this model pins down is the pipeline's
//! binding contract — which circuit a proof belongs to, which public values
//! it attests, and when verification accepts — so the orchestration,
//! serialization and error paths around it are fully checked.

use vstd::prelude::*;
use vstd::arithmetic::div_mod::lemma_mod_sub_multiples_vanish;
use vstd::arithmetic::div_mod::lemma_small_mod;
use crate::channels::GuestInput;
use crate::channels::PublicValues;
use crate::digest::digest;
use crate::digest::digest_bytes;
use crate::guest::claim_holds;
use crate::guest::committed_bytes;
use crate::guest::input_index;
use crate::guest::run_guest;
use crate::guest::GuestFault;

verus! {

/// The key that checks proofs: it carries the circuit identity, the digest of
/// the guest binary the key pair was derived from. Immutable after setup.
#[derive(Clone, Copy, PartialEq, Eq, Structural, Debug)]
pub struct VerifyingKey {
    circuit: u64,
}

impl VerifyingKey {
    /// The circuit identity this key is bound to.
    pub closed spec fn id(self) -> u64 {
        self.circuit
    }

    /// The circuit identity this key is bound to.
    pub fn circuit_id(&self) -> (r: u64)
        ensures
            r == self.id(),
    {
        self.circuit
    }
}

/// The key that makes proofs. It contains its matching verifying key, as the
/// two are derived together in one setup step.
#[derive(Clone, Copy, PartialEq, Eq, Structural, Debug)]
pub struct ProvingKey {
    vk: VerifyingKey,
}

impl ProvingKey {
    /// The verifying key this proving key is paired with.
    pub closed spec fn vk_spec(self) -> VerifyingKey {
        self.vk
    }

    /// The verifying key this proving key is paired with.
    pub fn verifying_key(&self) -> (r: VerifyingKey)
        ensures
            r == self.vk_spec(),
    {
        self.vk
    }
}

/// Rebuilds a verifying key from its decoded circuit identity, for keys
/// loaded from persistent storage.
pub fn vk_from_id(circuit: u64) -> (r: VerifyingKey)
    ensures
        r.id() == circuit,
{
    VerifyingKey { circuit }
}

/// Derives the key pair for a guest binary. The two keys carry the same
/// circuit identity: the digest of the binary.
pub fn setup(elf: &Vec<u8>) -> (r: (ProvingKey, VerifyingKey))
    ensures
        r.0.vk_spec() == r.1,
        r.1.id() == digest(elf@),
{
    let c = digest_bytes(elf);
    (ProvingKey { vk: VerifyingKey { circuit: c } }, VerifyingKey { circuit: c })
}

/// The record of a completed guest execution: the circuit it ran on and the
/// public values it committed. Its size tracks the execution, so it is never
/// persisted; compression turns it into the fixed-size form.
pub struct BaseProof {
    circuit: u64,
    public_values: PublicValues,
}

impl BaseProof {
    /// The circuit identity the execution was proved against.
    pub closed spec fn circuit_spec(self) -> u64 {
        self.circuit
    }

    /// The bytes the execution committed.
    pub closed spec fn pv(self) -> Seq<u8> {
        self.public_values@
    }
}

/// The fixed-size compressed proof: two binding digests — one for the
/// verifying key's circuit, one for the committed public values — and the
/// seal, the value the model's final proof check recomputes. Its size does
/// not depend on the guest execution's length.
#[derive(Clone, Copy, PartialEq, Eq, Structural, Debug)]
pub struct CompressedProof {
    vk_digest: u64,
    pv_digest: u64,
    seal: u64,
}

impl CompressedProof {
    /// The digest binding the proof to a circuit.
    pub closed spec fn vk_digest_spec(self) -> u64 {
        self.vk_digest
    }

    /// The digest binding the proof to its committed public values.
    pub closed spec fn pv_digest_spec(self) -> u64 {
        self.pv_digest
    }

    /// The seal checked by the final proof check.
    pub closed spec fn seal_spec(self) -> u64 {
        self.seal
    }

    /// Rebuilds a compressed proof from its three decoded fields.
    pub fn from_fields(vk_digest: u64, pv_digest: u64, seal: u64) -> (r: CompressedProof)
        ensures
            r.vk_digest_spec() == vk_digest,
            r.pv_digest_spec() == pv_digest,
            r.seal_spec() == seal,
    {
        CompressedProof { vk_digest, pv_digest, seal }
    }

    /// The binding digest for the circuit.
    pub fn vk_digest(&self) -> (r: u64)
        ensures
            r == self.vk_digest_spec(),
    {
        self.vk_digest
    }

    /// The binding digest for the public values.
    pub fn pv_digest(&self) -> (r: u64)
        ensures
            r == self.pv_digest_spec(),
    {
        self.pv_digest
    }

    /// The seal.
    pub fn seal(&self) -> (r: u64)
        ensures
            r == self.seal_spec(),
    {
        self.seal
    }
}

/// The seal every honestly produced proof carries: a fixed combination of
/// the two binding digests, recomputed by the final proof check.
pub open spec fn seal_value(vk_digest: u64, pv_digest: u64) -> u64 {
    ((vk_digest + pv_digest) % 0x1_0000_0000_0000_0000) as u64
}

/// A compressed proof together with the public values it attests — the form
/// that is persisted and later verified.
pub struct ProofWithPublicValues {
    proof: CompressedProof,
    public_values: PublicValues,
}

impl ProofWithPublicValues {
    /// The compressed proof.
    pub closed spec fn proof_spec(self) -> CompressedProof {
        self.proof
    }

    /// The attested public-values bytes.
    pub closed spec fn pv(self) -> Seq<u8> {
        self.public_values@
    }

    /// Rebuilds the container from a decoded proof and decoded public values.
    pub fn from_parts(proof: CompressedProof, public_values: PublicValues) -> (r:
        ProofWithPublicValues)
        ensures
            r.proof_spec() == proof,
            r.pv() == public_values@,
    {
        ProofWithPublicValues { proof, public_values }
    }

    /// The compressed proof.
    pub fn compressed(&self) -> (r: CompressedProof)
        ensures
            r == self.proof_spec(),
    {
        self.proof
    }

    /// A copy of the attested public-values bytes.
    pub fn public_values(&self) -> (r: Vec<u8>)
        ensures
            r@ == self.pv(),
    {
        self.public_values.to_vec()
    }
}

/// What it means for a container to be the honest proof of circuit `circuit`
/// attesting exactly the bytes `pv`.
pub open spec fn attests(p: ProofWithPublicValues, circuit: u64, pv: Seq<u8>) -> bool {
    &&& p.proof_spec().vk_digest_spec() == circuit
    &&& p.proof_spec().pv_digest_spec() == digest(pv)
    &&& p.proof_spec().seal_spec() == seal_value(circuit, digest(pv))
    &&& p.pv() == pv
}

/// Why verification rejected a proof.
#[derive(Clone, Copy, PartialEq, Eq, Structural, Debug)]
pub enum VerifyFault {
    /// The proof's circuit binding does not match the supplied verifying key.
    KeyMismatch,
    /// The proof's public-values binding does not match the attested bytes.
    PublicValuesMismatch,
    /// The final proof check failed.
    ProofCheck,
}

/// The three checks of verification over the proof's decoded fields: circuit
/// binding first, then public-values binding, then the seal, each rejecting
/// with its own fault.
pub open spec fn verify_checks(
    vk_digest: u64,
    pv_digest: u64,
    seal: u64,
    pv: Seq<u8>,
    circuit: u64,
) -> Result<(), VerifyFault> {
    if vk_digest != circuit {
        Err(VerifyFault::KeyMismatch)
    } else if pv_digest != digest(pv) {
        Err(VerifyFault::PublicValuesMismatch)
    } else if seal != seal_value(vk_digest, pv_digest) {
        Err(VerifyFault::ProofCheck)
    } else {
        Ok(())
    }
}

/// The outcome of verifying a proof container against a verifying key.
pub open spec fn verify_outcome(p: ProofWithPublicValues, vk: VerifyingKey) -> Result<
    (),
    VerifyFault,
> {
    verify_checks(
        p.proof_spec().vk_digest_spec(),
        p.proof_spec().pv_digest_spec(),
        p.proof_spec().seal_spec(),
        p.pv(),
        vk.id(),
    )
}

/// A wrapping 64-bit sum equals the mathematical sum modulo 2^64.
proof fn lemma_wrap_add_is_mod(x: u64, y: u64)
    ensures
        vstd::wrapping::u64_specs::wrapping_add(x, y) == ((x + y)
            % 0x1_0000_0000_0000_0000) as u64,
{
    let m: int = 0x1_0000_0000_0000_0000;
    if x + y < m {
        lemma_small_mod((x + y) as nat, 0x1_0000_0000_0000_0000 as nat);
    } else {
        lemma_mod_sub_multiples_vanish(x + y, m);
        lemma_small_mod((x + y - m) as nat, 0x1_0000_0000_0000_0000 as nat);
    }
}

/// Executes the guest on the given input channel and captures the base
/// proof. Succeeds exactly when the guest execution completes; a guest abort
/// is a hard execution fault and no proof exists.
pub fn prove_base(pk: &ProvingKey, stdin: GuestInput) -> (r: Result<BaseProof, GuestFault>)
    requires
        stdin.wf(),
    ensures
        match r {
            Ok(bp) => claim_holds(stdin.remaining()) && bp.circuit_spec() == pk.vk_spec().id()
                && bp.pv() == committed_bytes(input_index(stdin.remaining())),
            Err(f) => !claim_holds(stdin.remaining()),
        },
{
    let mut input = stdin;
    match run_guest(&mut input) {
        Ok(pv) => Ok(BaseProof { circuit: self_circuit(pk), public_values: pv }),
        Err(f) => Err(f),
    }
}

/// The proving key's circuit identity.
fn self_circuit(pk: &ProvingKey) -> (r: u64)
    ensures
        r == pk.vk_spec().id(),
{
    pk.vk.circuit
}

/// Compresses a base proof into the fixed-size form. The attached public
/// values are byte-identical to the base proof's: compression never alters
/// the committed claim.
pub fn compress(base: BaseProof) -> (r: ProofWithPublicValues)
    ensures
        attests(r, base.circuit_spec(), base.pv()),
{
    let pvb = base.public_values.to_vec();
    let pvd = digest_bytes(&pvb);
    let seal = base.circuit.wrapping_add(pvd);
    proof {
        lemma_wrap_add_is_mod(base.circuit, pvd);
    }
    ProofWithPublicValues {
        proof: CompressedProof { vk_digest: base.circuit, pv_digest: pvd, seal },
        public_values: base.public_values,
    }
}

/// Executes, proves and compresses in one step: the long-running proving
/// operation of the host workflow. Returns the persistable container, or the
/// execution fault when the guest aborted (then no proof is obtainable).
pub fn prove_compressed(pk: &ProvingKey, stdin: GuestInput) -> (r: Result<
    ProofWithPublicValues,
    GuestFault,
>)
    requires
        stdin.wf(),
    ensures
        match r {
            Ok(p) => claim_holds(stdin.remaining()) && attests(p, pk.vk_spec().id(),
                committed_bytes(input_index(stdin.remaining()))),
            Err(f) => !claim_holds(stdin.remaining()),
        },
{
    match prove_base(pk, stdin) {
        Ok(bp) => Ok(compress(bp)),
        Err(f) => Err(f),
    }
}

/// Checks a proof container against a verifying key: circuit binding first,
/// then public-values binding, then the seal. Pure pass/fail; the fault says
/// which check rejected.
pub fn verify(p: &ProofWithPublicValues, vk: &VerifyingKey) -> (r: Result<(), VerifyFault>)
    ensures
        r == verify_outcome(*p, *vk),
{
    if p.proof.vk_digest != vk.circuit {
        return Err(VerifyFault::KeyMismatch);
    }
    let pvb = p.public_values.to_vec();
    let d = digest_bytes(&pvb);
    if p.proof.pv_digest != d {
        return Err(VerifyFault::PublicValuesMismatch);
    }
    let seal = p.proof.vk_digest.wrapping_add(p.proof.pv_digest);
    proof {
        lemma_wrap_add_is_mod(p.proof.vk_digest, p.proof.pv_digest);
    }
    if p.proof.seal != seal {
        return Err(VerifyFault::ProofCheck);
    }
    Ok(())
}

/// A proof honestly produced for a circuit and public values is accepted by
/// the verifying key of the same setup run.
pub proof fn lemma_matching_key_accepts(p: ProofWithPublicValues, vk: VerifyingKey, pv: Seq<u8>)
    requires
        attests(p, vk.id(), pv),
    ensures
        verify_outcome(p, vk) == Ok::<(), VerifyFault>(()),
{
}

/// A proof checked against a verifying key from a different setup run — a
/// different circuit identity — is rejected as a key mismatch, however
/// well-formed the proof is.
pub proof fn lemma_foreign_key_rejected(p: ProofWithPublicValues, vk: VerifyingKey)
    requires
        p.proof_spec().vk_digest_spec() != vk.id(),
    ensures
        verify_outcome(p, vk) == Err::<(), VerifyFault>(VerifyFault::KeyMismatch),
{
}

/// Altering any single byte of the attested public values of an accepted
/// proof makes verification reject: the public-values binding no longer
/// matches.
pub proof fn lemma_tampered_public_values_rejected(
    p: ProofWithPublicValues,
    q: ProofWithPublicValues,
    vk: VerifyingKey,
    i: int,
)
    requires
        verify_outcome(p, vk) == Ok::<(), VerifyFault>(()),
        q.proof_spec() == p.proof_spec(),
        q.pv().len() == p.pv().len(),
        0 <= i < p.pv().len(),
        q.pv()[i] != p.pv()[i],
        forall|j: int| 0 <= j < p.pv().len() && j != i ==> q.pv()[j] == p.pv()[j],
    ensures
        verify_outcome(q, vk) == Err::<(), VerifyFault>(VerifyFault::PublicValuesMismatch),
{
    crate::digest::lemma_digest_detects_byte_change(p.pv(), q.pv(), i);
}

} // verus!
