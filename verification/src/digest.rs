//! The 64-bit binding digest of a byte stream. A compressed proof carries the
//! digest of the verifying key's circuit identity source (the guest binary)
//! and the digest of the committed public values; verification recomputes and
//! compares them. The digest is a Horner evaluation in base 257 modulo 2^64,
//! so changing any single byte of a stream always changes its digest — the
//! property the tamper-rejection law of verification rests on.

use vstd::prelude::*;
use vstd::arithmetic::div_mod::lemma_add_mod_noop;
use vstd::arithmetic::div_mod::lemma_mod_sub_multiples_vanish;
use vstd::arithmetic::div_mod::lemma_small_mod;

verus! {

/// The digest of `s`: `d_0 = 0`, `d_k = (d_{k-1} * 257 + byte) mod 2^64`.
pub open spec fn digest(s: Seq<u8>) -> u64
    decreases s.len(),
{
    if s.len() == 0 {
        0
    } else {
        ((digest(s.drop_last()) * 257 + s.last()) % 0x1_0000_0000_0000_0000) as u64
    }
}

/// Computes the digest of `b`.
pub fn digest_bytes(b: &Vec<u8>) -> (r: u64)
    ensures
        r == digest(b@),
{
    let mut d: u64 = 0;
    let mut i: usize = 0;
    while i < b.len()
        invariant
            i <= b@.len(),
            d == digest(b@.take(i as int)),
        decreases b@.len() - i,
    {
        let prev = d;
        let c = b[i];
        let t = prev.wrapping_mul(257);
        d = t.wrapping_add(c as u64);
        i = i + 1;
        proof {
            assert(b@.take(i as int).drop_last() =~= b@.take(i - 1));
            assert(b@.take(i as int).last() == b@[i - 1]);
            let m: int = 0x1_0000_0000_0000_0000;
            let x: int = prev * 257;
            let c64: int = c as int;
            lemma_add_mod_noop(x, c64, m);
            lemma_small_mod(c as nat, 0x1_0000_0000_0000_0000 as nat);
            assert((t + c64) % m == (x + c64) % m);
            if t + c64 < m {
                lemma_small_mod((t + c64) as nat, 0x1_0000_0000_0000_0000 as nat);
            } else {
                lemma_mod_sub_multiples_vanish(t + c64, m);
                lemma_small_mod((t + c64 - m) as nat, 0x1_0000_0000_0000_0000 as nat);
            }
            assert(d == (prev * 257 + c64) % 0x1_0000_0000_0000_0000);
        }
    }
    proof {
        assert(b@.take(b@.len() as int) =~= b@);
    }
    d
}

/// Changing a single byte of a stream, keeping its length, always changes
/// its digest: a digest check detects any one-byte tampering.
pub proof fn lemma_digest_detects_byte_change(s1: Seq<u8>, s2: Seq<u8>, i: int)
    requires
        s1.len() == s2.len(),
        0 <= i < s1.len(),
        s1[i] != s2[i],
        forall|j: int| 0 <= j < s1.len() && j != i ==> s1[j] == s2[j],
    ensures
        digest(s1) != digest(s2),
    decreases s1.len(),
{
    if i == s1.len() - 1 {
        assert(s1.drop_last() =~= s2.drop_last());
        let d = digest(s1.drop_last());
        let c1 = s1.last() as u64;
        let c2 = s2.last() as u64;
        assert((d * 257 + c1) % 0x1_0000_0000_0000_0000 != (d * 257 + c2)
            % 0x1_0000_0000_0000_0000) by (bit_vector)
            requires
                c1 != c2,
                c1 < 256,
                c2 < 256,
        ;
    } else {
        assert(forall|j: int|
            0 <= j < s1.len() - 1 && j != i ==> s1.drop_last()[j] == s2.drop_last()[j]);
        assert(s1.drop_last()[i] == s1[i] && s2.drop_last()[i] == s2[i]);
        lemma_digest_detects_byte_change(s1.drop_last(), s2.drop_last(), i);
        let d1 = digest(s1.drop_last());
        let d2 = digest(s2.drop_last());
        let c = s1.last() as u64;
        assert(s2.last() as u64 == c);
        assert((d1 * 257 + c) % 0x1_0000_0000_0000_0000 != (d2 * 257 + c)
            % 0x1_0000_0000_0000_0000) by (bit_vector)
            requires
                d1 != d2,
        ;
    }
}

} // verus!
