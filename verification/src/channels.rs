//! The two typed channels of the guest program: the private input channel the
//! host fills before execution (witness material, read back in write order),
//! and the append-only public-values buffer the guest commits to. Keeping the
//! two buffers separate keeps the cryptographic-binding boundary explicit:
//! only bytes in the public-values buffer are bound into a proof.

use vstd::prelude::*;
use crate::bytes::push_u32_le;
use crate::bytes::push_u64_le;
use crate::bytes::u32_le_bytes;
use crate::bytes::u64_le_bytes;

verus! {

/// One typed value on the private input channel.
#[derive(Clone, Copy, PartialEq, Eq, Structural, Debug)]
pub enum InputValue {
    U32(u32),
    U64(u64),
}

/// The private input channel: values the host wrote, and a cursor for the
/// values the guest has consumed so far. Reads must match the write order and
/// the written types exactly; a mismatch is a fatal decoding fault.
pub struct GuestInput {
    values: Vec<InputValue>,
    cursor: usize,
}

impl GuestInput {
    /// The cursor never runs past the written values.
    pub closed spec fn wf(self) -> bool {
        self.cursor <= self.values@.len()
    }

    /// Every value written to the channel, in write order.
    pub closed spec fn written(self) -> Seq<InputValue> {
        self.values@
    }

    /// The values not yet consumed by the guest, in write order.
    pub closed spec fn remaining(self) -> Seq<InputValue> {
        self.values@.skip(self.cursor as int)
    }

    /// An empty channel with nothing written and nothing consumed.
    pub fn new() -> (r: GuestInput)
        ensures
            r.wf(),
            r.written() == Seq::<InputValue>::empty(),
            r.remaining() == Seq::<InputValue>::empty(),
    {
        let r = GuestInput { values: Vec::new(), cursor: 0 };
        proof {
            assert(r.remaining() =~= Seq::<InputValue>::empty());
        }
        r
    }

    /// Host side: append a 32-bit value to the channel.
    pub fn write_u32(&mut self, x: u32)
        requires
            old(self).wf(),
        ensures
            final(self).wf(),
            final(self).written() == old(self).written().push(InputValue::U32(x)),
            final(self).remaining() == old(self).remaining().push(InputValue::U32(x)),
    {
        self.values.push(InputValue::U32(x));
        proof {
            assert(final(self).remaining() =~= old(self).remaining().push(InputValue::U32(x)));
        }
    }

    /// Host side: append a 64-bit value to the channel.
    pub fn write_u64(&mut self, x: u64)
        requires
            old(self).wf(),
        ensures
            final(self).wf(),
            final(self).written() == old(self).written().push(InputValue::U64(x)),
            final(self).remaining() == old(self).remaining().push(InputValue::U64(x)),
    {
        self.values.push(InputValue::U64(x));
        proof {
            assert(final(self).remaining() =~= old(self).remaining().push(InputValue::U64(x)));
        }
    }

    /// Guest side: consume the next value, which must be a 32-bit value.
    /// `None` is the fatal decoding fault: the channel is exhausted or the
    /// next value has the wrong type.
    pub fn read_u32(&mut self) -> (r: Option<u32>)
        requires
            old(self).wf(),
        ensures
            final(self).wf(),
            final(self).written() == old(self).written(),
            match r {
                Some(v) => old(self).remaining().len() >= 1 && old(self).remaining()[0]
                    == InputValue::U32(v) && final(self).remaining() == old(self).remaining().skip(
                    1,
                ),
                None => *final(self) == *old(self) && !(old(self).remaining().len() >= 1 && old(
                    self,
                ).remaining()[0] is U32),
            },
    {
        if self.cursor < self.values.len() {
            let v = self.values[self.cursor];
            match v {
                InputValue::U32(x) => {
                    self.cursor = self.cursor + 1;
                    proof {
                        assert(final(self).remaining() =~= old(self).remaining().skip(1));
                    }
                    Some(x)
                },
                InputValue::U64(_) => None,
            }
        } else {
            proof {
                assert(old(self).remaining().len() == 0);
            }
            None
        }
    }

    /// Guest side: consume the next value, which must be a 64-bit value.
    /// `None` is the fatal decoding fault, as for 32-bit reads.
    pub fn read_u64(&mut self) -> (r: Option<u64>)
        requires
            old(self).wf(),
        ensures
            final(self).wf(),
            final(self).written() == old(self).written(),
            match r {
                Some(v) => old(self).remaining().len() >= 1 && old(self).remaining()[0]
                    == InputValue::U64(v) && final(self).remaining() == old(self).remaining().skip(
                    1,
                ),
                None => *final(self) == *old(self) && !(old(self).remaining().len() >= 1 && old(
                    self,
                ).remaining()[0] is U64),
            },
    {
        if self.cursor < self.values.len() {
            let v = self.values[self.cursor];
            match v {
                InputValue::U64(x) => {
                    self.cursor = self.cursor + 1;
                    proof {
                        assert(final(self).remaining() =~= old(self).remaining().skip(1));
                    }
                    Some(x)
                },
                InputValue::U32(_) => None,
            }
        } else {
            proof {
                assert(old(self).remaining().len() == 0);
            }
            None
        }
    }
}

/// The public commitment channel: an ordered, append-only byte buffer. Only
/// values committed here are cryptographically bound into a proof.
#[derive(Debug, PartialEq, Eq)]
pub struct PublicValues {
    bytes: Vec<u8>,
}

impl View for PublicValues {
    type V = Seq<u8>;

    closed spec fn view(&self) -> Seq<u8> {
        self.bytes@
    }
}

impl PublicValues {
    /// An empty buffer with nothing committed.
    pub fn new() -> (r: PublicValues)
        ensures
            r@ == Seq::<u8>::empty(),
    {
        PublicValues { bytes: Vec::new() }
    }

    /// A buffer holding exactly the given bytes, for artifacts loaded from
    /// persistent storage.
    pub fn from_bytes(bytes: Vec<u8>) -> (r: PublicValues)
        ensures
            r@ == bytes@,
    {
        PublicValues { bytes }
    }

    /// Commit a 32-bit value: appends its fixed-width little-endian encoding.
    pub fn commit_u32(&mut self, x: u32)
        ensures
            final(self)@ == old(self)@ + u32_le_bytes(x),
    {
        push_u32_le(&mut self.bytes, x);
    }

    /// Commit a 64-bit value: appends its fixed-width little-endian encoding.
    pub fn commit_u64(&mut self, x: u64)
        ensures
            final(self)@ == old(self)@ + u64_le_bytes(x),
    {
        push_u64_le(&mut self.bytes, x);
    }

    /// The number of committed bytes.
    pub fn len(&self) -> (r: usize)
        ensures
            r == self@.len(),
    {
        self.bytes.len()
    }

    /// The committed byte at position `i`.
    pub fn byte_at(&self, i: usize) -> (r: u8)
        requires
            i < self@.len(),
        ensures
            r == self@[i as int],
    {
        self.bytes[i]
    }

    /// A copy of the committed bytes, in commitment order.
    pub fn to_vec(&self) -> (r: Vec<u8>)
        ensures
            r@ == self@,
    {
        let mut out: Vec<u8> = Vec::new();
        let mut i: usize = 0;
        while i < self.bytes.len()
            invariant
                i <= self.bytes@.len(),
                out@ == self.bytes@.take(i as int),
            decreases self.bytes@.len() - i,
        {
            out.push(self.bytes[i]);
            i = i + 1;
            proof {
                assert(out@ =~= self.bytes@.take(i as int));
            }
        }
        proof {
            assert(self.bytes@.take(self.bytes@.len() as int) =~= self.bytes@);
        }
        out
    }

    /// A copy of the whole buffer.
    pub fn duplicate(&self) -> (r: PublicValues)
        ensures
            r@ == self@,
    {
        PublicValues { bytes: self.to_vec() }
    }
}

} // verus!
