//! Artifact serialization: deterministic, lossless codecs between the
//! in-memory proof objects and the persisted byte streams. Four independent
//! encodings: the raw compressed-proof bytes, the full-proof container, the
//! raw public-values bytes, and the verifying-key bytes. Truncated or
//! corrupted streams fail decoding with a structured fault; there is no
//! partial decoding.

use vstd::prelude::*;
use crate::backend::CompressedProof;
use crate::backend::ProofWithPublicValues;
use crate::backend::VerifyingKey;
use crate::bytes::push_u64_le;
use crate::bytes::read_u32_le;
use crate::bytes::read_u64_le;
use crate::bytes::u32_from_le;
use crate::bytes::u32_le_bytes;
use crate::bytes::u64_from_le;
use crate::bytes::u64_le_bytes;
use crate::bytes::lemma_u32_le_roundtrip;
use crate::bytes::lemma_u64_le_roundtrip;
use crate::channels::PublicValues;

verus! {

/// The metadata tag of the full-proof container: the proof-system mode the
/// artifacts were produced under.
pub const CONTAINER_TAG: u8 = 1;

/// Why a byte stream failed to decode.
#[derive(Clone, Copy, PartialEq, Eq, Structural, Debug)]
pub enum DecodeFault {
    /// The stream ends before the encoding does.
    Truncated,
    /// The stream goes on after the encoding ends.
    TrailingBytes,
    /// The stream's metadata tag is not the expected one.
    BadTag,
}

/// The 24-byte encoding of a compressed proof: its three fields,
/// little-endian, in order.
pub open spec fn proof_bytes_spec(p: CompressedProof) -> Seq<u8> {
    u64_le_bytes(p.vk_digest_spec()) + u64_le_bytes(p.pv_digest_spec()) + u64_le_bytes(
        p.seal_spec(),
    )
}

/// What decoding a compressed-proof stream yields: the three fields, or a
/// fault unless the stream is exactly 24 bytes.
pub open spec fn decode_proof_spec(s: Seq<u8>) -> Result<(u64, u64, u64), DecodeFault> {
    if s.len() < 24 {
        Err(DecodeFault::Truncated)
    } else if s.len() > 24 {
        Err(DecodeFault::TrailingBytes)
    } else {
        Ok((u64_from_le(s.subrange(0, 8)), u64_from_le(s.subrange(8, 16)), u64_from_le(
            s.subrange(16, 24),
        )))
    }
}

/// Encodes a compressed proof as its raw 24 bytes.
pub fn encode_proof(p: &CompressedProof) -> (r: Vec<u8>)
    ensures
        r@ == proof_bytes_spec(*p),
{
    let mut out: Vec<u8> = Vec::new();
    push_u64_le(&mut out, p.vk_digest());
    push_u64_le(&mut out, p.pv_digest());
    push_u64_le(&mut out, p.seal());
    proof {
        assert(out@ =~= proof_bytes_spec(*p));
    }
    out
}

/// Decodes raw compressed-proof bytes.
pub fn decode_proof(s: &Vec<u8>) -> (r: Result<CompressedProof, DecodeFault>)
    ensures
        match r {
            Ok(q) => decode_proof_spec(s@) == Ok::<(u64, u64, u64), DecodeFault>(
                (q.vk_digest_spec(), q.pv_digest_spec(), q.seal_spec()),
            ),
            Err(f) => decode_proof_spec(s@) == Err::<(u64, u64, u64), DecodeFault>(f),
        },
{
    if s.len() < 24 {
        return Err(DecodeFault::Truncated);
    }
    if s.len() > 24 {
        return Err(DecodeFault::TrailingBytes);
    }
    let vk_digest = read_u64_le(s, 0);
    let pv_digest = read_u64_le(s, 8);
    let seal = read_u64_le(s, 16);
    Ok(CompressedProof::from_fields(vk_digest, pv_digest, seal))
}

/// Decoding a freshly encoded compressed proof yields its three fields
/// unchanged.
pub proof fn lemma_proof_bytes_roundtrip(p: CompressedProof)
    ensures
        decode_proof_spec(proof_bytes_spec(p)) == Ok::<(u64, u64, u64), DecodeFault>(
            (p.vk_digest_spec(), p.pv_digest_spec(), p.seal_spec()),
        ),
{
    let s = proof_bytes_spec(p);
    assert(s.subrange(0, 8) =~= u64_le_bytes(p.vk_digest_spec()));
    assert(s.subrange(8, 16) =~= u64_le_bytes(p.pv_digest_spec()));
    assert(s.subrange(16, 24) =~= u64_le_bytes(p.seal_spec()));
    lemma_u64_le_roundtrip(p.vk_digest_spec());
    lemma_u64_le_roundtrip(p.pv_digest_spec());
    lemma_u64_le_roundtrip(p.seal_spec());
}

/// The encoding of the full-proof container: the metadata tag, the 24 proof
/// bytes, the public-values length, then the public-values bytes.
pub open spec fn container_bytes_spec(p: ProofWithPublicValues) -> Seq<u8> {
    seq![CONTAINER_TAG] + proof_bytes_spec(p.proof_spec()) + u64_le_bytes(p.pv().len() as u64)
        + p.pv()
}

/// What decoding a container stream yields: the proof fields and the
/// attested bytes, or the fault that stopped decoding.
pub open spec fn decode_container_spec(s: Seq<u8>) -> Result<
    (u64, u64, u64, Seq<u8>),
    DecodeFault,
> {
    if s.len() < 33 {
        Err(DecodeFault::Truncated)
    } else if s[0] != CONTAINER_TAG {
        Err(DecodeFault::BadTag)
    } else if s.len() - 33 < u64_from_le(s.subrange(25, 33)) {
        Err(DecodeFault::Truncated)
    } else if s.len() - 33 > u64_from_le(s.subrange(25, 33)) {
        Err(DecodeFault::TrailingBytes)
    } else {
        Ok((u64_from_le(s.subrange(1, 9)), u64_from_le(s.subrange(9, 17)), u64_from_le(
            s.subrange(17, 25),
        ), s.skip(33)))
    }
}

/// Encodes the full-proof container.
pub fn encode_container(p: &ProofWithPublicValues) -> (r: Vec<u8>)
    ensures
        r@ == container_bytes_spec(*p),
{
    let mut out: Vec<u8> = Vec::new();
    out.push(CONTAINER_TAG);
    let c = p.compressed();
    push_u64_le(&mut out, c.vk_digest());
    push_u64_le(&mut out, c.pv_digest());
    push_u64_le(&mut out, c.seal());
    let pvb = p.public_values();
    push_u64_le(&mut out, pvb.len() as u64);
    let mut i: usize = 0;
    while i < pvb.len()
        invariant
            i <= pvb@.len(),
            out@ == seq![CONTAINER_TAG] + proof_bytes_spec(p.proof_spec()) + u64_le_bytes(
                p.pv().len() as u64,
            ) + pvb@.take(i as int),
            pvb@ == p.pv(),
        decreases pvb@.len() - i,
    {
        out.push(pvb[i]);
        i = i + 1;
        proof {
            assert(out@ =~= seq![CONTAINER_TAG] + proof_bytes_spec(p.proof_spec())
                + u64_le_bytes(p.pv().len() as u64) + pvb@.take(i as int));
        }
    }
    proof {
        assert(pvb@.take(pvb@.len() as int) =~= pvb@);
        assert(out@ =~= container_bytes_spec(*p));
    }
    out
}

/// Decodes a full-proof container stream.
pub fn decode_container(s: &Vec<u8>) -> (r: Result<ProofWithPublicValues, DecodeFault>)
    ensures
        match r {
            Ok(p) => decode_container_spec(s@) == Ok::<(u64, u64, u64, Seq<u8>), DecodeFault>(
                (
                    p.proof_spec().vk_digest_spec(),
                    p.proof_spec().pv_digest_spec(),
                    p.proof_spec().seal_spec(),
                    p.pv(),
                ),
            ),
            Err(f) => decode_container_spec(s@) == Err::<(u64, u64, u64, Seq<u8>), DecodeFault>(
                f,
            ),
        },
{
    if s.len() < 33 {
        return Err(DecodeFault::Truncated);
    }
    if s[0] != CONTAINER_TAG {
        return Err(DecodeFault::BadTag);
    }
    let vk_digest = read_u64_le(s, 1);
    let pv_digest = read_u64_le(s, 9);
    let seal = read_u64_le(s, 17);
    let pv_len = read_u64_le(s, 25);
    let body_len = s.len() - 33;
    if (body_len as u64) < pv_len {
        return Err(DecodeFault::Truncated);
    }
    if (body_len as u64) > pv_len {
        return Err(DecodeFault::TrailingBytes);
    }
    let mut body: Vec<u8> = Vec::new();
    let mut i: usize = 33;
    while i < s.len()
        invariant
            33 <= i <= s@.len(),
            body@ == s@.subrange(33, i as int),
        decreases s@.len() - i,
    {
        body.push(s[i]);
        i = i + 1;
        proof {
            assert(body@ =~= s@.subrange(33, i as int));
        }
    }
    proof {
        assert(s@.subrange(33, s@.len() as int) =~= s@.skip(33));
    }
    let pv = PublicValues::from_bytes(body);
    Ok(ProofWithPublicValues::from_parts(CompressedProof::from_fields(vk_digest, pv_digest, seal),
        pv))
}

/// Decoding a container stream built from three proof fields and a body
/// yields those fields and that body unchanged, for any body that fits the
/// length field's width (every buffer that fits in memory does).
#[verifier::rlimit(50)]
pub proof fn lemma_container_fields_roundtrip(vk_digest: u64, pv_digest: u64, seal: u64, pv: Seq<
    u8,
>)
    requires
        pv.len() <= u64::MAX,
    ensures
        decode_container_spec(seq![CONTAINER_TAG] + (u64_le_bytes(vk_digest) + u64_le_bytes(
            pv_digest,
        ) + u64_le_bytes(seal)) + u64_le_bytes(pv.len() as u64) + pv) == Ok::<
            (u64, u64, u64, Seq<u8>),
            DecodeFault,
        >((vk_digest, pv_digest, seal, pv)),
{
    let s = seq![CONTAINER_TAG] + (u64_le_bytes(vk_digest) + u64_le_bytes(pv_digest)
        + u64_le_bytes(seal)) + u64_le_bytes(pv.len() as u64) + pv;
    assert(s.len() == 33 + pv.len());
    assert(s[0] == CONTAINER_TAG);
    assert(s.subrange(1, 9) =~= u64_le_bytes(vk_digest));
    assert(s.subrange(9, 17) =~= u64_le_bytes(pv_digest));
    assert(s.subrange(17, 25) =~= u64_le_bytes(seal));
    assert(s.subrange(25, 33) =~= u64_le_bytes(pv.len() as u64));
    lemma_u64_le_roundtrip(vk_digest);
    lemma_u64_le_roundtrip(pv_digest);
    lemma_u64_le_roundtrip(seal);
    lemma_u64_le_roundtrip(pv.len() as u64);
    assert(s.skip(33) =~= pv);
}

/// Decoding a freshly encoded container yields the proof fields and the
/// attested bytes unchanged.
pub proof fn lemma_container_roundtrip(p: ProofWithPublicValues)
    requires
        p.pv().len() <= u64::MAX,
    ensures
        decode_container_spec(container_bytes_spec(p)) == Ok::<
            (u64, u64, u64, Seq<u8>),
            DecodeFault,
        >(
            (
                p.proof_spec().vk_digest_spec(),
                p.proof_spec().pv_digest_spec(),
                p.proof_spec().seal_spec(),
                p.pv(),
            ),
        ),
{
    lemma_container_fields_roundtrip(
        p.proof_spec().vk_digest_spec(),
        p.proof_spec().pv_digest_spec(),
        p.proof_spec().seal_spec(),
        p.pv(),
    );
}

/// The 8-byte encoding of a verifying key: its circuit identity,
/// little-endian.
pub open spec fn vk_bytes_spec(vk: VerifyingKey) -> Seq<u8> {
    u64_le_bytes(vk.id())
}

/// What decoding a verifying-key stream yields: the circuit identity, or a
/// fault unless the stream is exactly 8 bytes.
pub open spec fn decode_vk_spec(s: Seq<u8>) -> Result<u64, DecodeFault> {
    if s.len() < 8 {
        Err(DecodeFault::Truncated)
    } else if s.len() > 8 {
        Err(DecodeFault::TrailingBytes)
    } else {
        Ok(u64_from_le(s.subrange(0, 8)))
    }
}

/// Encodes a verifying key.
pub fn encode_vk(vk: &VerifyingKey) -> (r: Vec<u8>)
    ensures
        r@ == vk_bytes_spec(*vk),
{
    let mut out: Vec<u8> = Vec::new();
    push_u64_le(&mut out, vk.circuit_id());
    proof {
        assert(out@ =~= vk_bytes_spec(*vk));
    }
    out
}

/// Decodes a verifying-key stream.
pub fn decode_vk(s: &Vec<u8>) -> (r: Result<VerifyingKey, DecodeFault>)
    ensures
        match r {
            Ok(vk) => decode_vk_spec(s@) == Ok::<u64, DecodeFault>(vk.id()),
            Err(f) => decode_vk_spec(s@) == Err::<u64, DecodeFault>(f),
        },
{
    if s.len() < 8 {
        return Err(DecodeFault::Truncated);
    }
    if s.len() > 8 {
        return Err(DecodeFault::TrailingBytes);
    }
    let c = read_u64_le(s, 0);
    Ok(crate::backend::vk_from_id(c))
}

/// Decoding the encoding of a circuit identity yields the identity back.
pub proof fn lemma_vk_fields_roundtrip(circuit: u64)
    ensures
        decode_vk_spec(u64_le_bytes(circuit)) == Ok::<u64, DecodeFault>(circuit),
{
    assert(u64_le_bytes(circuit).subrange(0, 8) =~= u64_le_bytes(circuit));
    lemma_u64_le_roundtrip(circuit);
}

/// Decoding a freshly encoded verifying key yields its circuit identity.
pub proof fn lemma_vk_bytes_roundtrip(vk: VerifyingKey)
    ensures
        decode_vk_spec(vk_bytes_spec(vk)) == Ok::<u64, DecodeFault>(vk.id()),
{
    lemma_vk_fields_roundtrip(vk.id());
}

/// What decoding raw public-values bytes as the guest's claim yields: the
/// index and the computed value, or a fault unless the stream is exactly the
/// 12 committed bytes.
pub open spec fn decode_claim_spec(s: Seq<u8>) -> Result<(u32, u64), DecodeFault> {
    if s.len() < 12 {
        Err(DecodeFault::Truncated)
    } else if s.len() > 12 {
        Err(DecodeFault::TrailingBytes)
    } else {
        Ok((u32_from_le(s.subrange(0, 4)), u64_from_le(s.subrange(4, 12))))
    }
}

/// Decodes raw public-values bytes as the guest's claim: the committed
/// index, then the committed value.
pub fn decode_claim(s: &Vec<u8>) -> (r: Result<(u32, u64), DecodeFault>)
    ensures
        match r {
            Ok(c) => decode_claim_spec(s@) == Ok::<(u32, u64), DecodeFault>(c),
            Err(f) => decode_claim_spec(s@) == Err::<(u32, u64), DecodeFault>(f),
        },
{
    if s.len() < 12 {
        return Err(DecodeFault::Truncated);
    }
    if s.len() > 12 {
        return Err(DecodeFault::TrailingBytes);
    }
    let n = read_u32_le(s, 0);
    let v = read_u64_le(s, 4);
    Ok((n, v))
}

/// Decoding the bytes a completed execution committed yields the index and
/// the computed value unchanged.
pub proof fn lemma_claim_roundtrip(n: u32, v: u64)
    ensures
        decode_claim_spec(u32_le_bytes(n) + u64_le_bytes(v)) == Ok::<(u32, u64), DecodeFault>(
            (n, v),
        ),
{
    let s = u32_le_bytes(n) + u64_le_bytes(v);
    assert(s.subrange(0, 4) =~= u32_le_bytes(n));
    assert(s.subrange(4, 12) =~= u64_le_bytes(v));
    lemma_u32_le_roundtrip(n);
    lemma_u64_le_roundtrip(v);
}

} // verus!
