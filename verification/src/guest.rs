//! The guest program: the deterministic computation run inside the provable
//! environment. It reads an index and a claimed value from the private input
//! channel, recomputes the value, and either commits the public outputs or
//! aborts. An aborted execution has no valid trace, so no proof can be made
//! for it — that is what makes a proof of a completed run meaningful.

use vstd::prelude::*;
use crate::bytes::u32_le_bytes;
use crate::bytes::u64_le_bytes;
use crate::channels::GuestInput;
use crate::channels::InputValue;
use crate::channels::PublicValues;
use crate::fib::fib;
use crate::fib::fibonacci;
use crate::fib::lemma_fib_bounded;

verus! {

/// Why a guest execution aborted. The host cannot tell the two apart any
/// further than this: both mean "no proof obtainable for this input".
#[derive(Clone, Copy, PartialEq, Eq, Structural, Debug)]
pub enum GuestFault {
    /// The input channel was exhausted or the next value had the wrong type.
    Input,
    /// The guest's correctness assertion failed.
    Assertion,
}

/// The input sequence the guest expects: a 32-bit index, then a 64-bit
/// claimed value.
pub open spec fn input_shape_ok(s: Seq<InputValue>) -> bool {
    s.len() >= 2 && s[0] is U32 && s[1] is U64
}

/// The index carried by a well-shaped input sequence.
pub open spec fn input_index(s: Seq<InputValue>) -> u32
    recommends
        input_shape_ok(s),
{
    s[0]->U32_0
}

/// The claimed value carried by a well-shaped input sequence.
pub open spec fn input_claim(s: Seq<InputValue>) -> u64
    recommends
        input_shape_ok(s),
{
    s[1]->U64_0
}

/// The guest's correctness assertion: the claimed value is `F(n)`.
pub open spec fn claim_holds(s: Seq<InputValue>) -> bool {
    input_shape_ok(s) && input_claim(s) == fib(input_index(s) as int)
}

/// The public values a completed execution commits: the index, then the
/// computed value, in that order, in fixed-width little-endian form.
pub open spec fn committed_bytes(n: u32) -> Seq<u8> {
    u32_le_bytes(n) + u64_le_bytes(fib(n as int) as u64)
}

/// Runs the guest program on the given input channel.
///
/// The execution completes exactly when the input is well-shaped and the
/// claimed value equals `F(n)`; it then commits `n` and `F(n)` to a fresh
/// public-values buffer. Any other input aborts the execution with the
/// matching fault and commits nothing.
pub fn run_guest(input: &mut GuestInput) -> (r: Result<PublicValues, GuestFault>)
    requires
        old(input).wf(),
    ensures
        final(input).wf(),
        final(input).written() == old(input).written(),
        match r {
            Ok(pv) => claim_holds(old(input).remaining()) && pv@ == committed_bytes(
                input_index(old(input).remaining()),
            ),
            Err(f) => !claim_holds(old(input).remaining()) && (f == GuestFault::Input
                <==> !input_shape_ok(old(input).remaining())) && (f == GuestFault::Assertion
                <==> input_shape_ok(old(input).remaining()) && !claim_holds(
                old(input).remaining(),
            )),
        },
{
    let n = match input.read_u32() {
        Some(v) => v,
        None => {
            return Err(GuestFault::Input);
        },
    };
    let expected_value = match input.read_u64() {
        Some(v) => v,
        None => {
            return Err(GuestFault::Input);
        },
    };

    let computed_value = fibonacci(n);

    if computed_value != expected_value {
        return Err(GuestFault::Assertion);
    }

    let mut pv = PublicValues::new();
    pv.commit_u32(n);
    pv.commit_u64(computed_value);
    proof {
        lemma_fib_bounded(n as int);
        assert(pv@ =~= committed_bytes(n));
    }
    Ok(pv)
}

} // verus!
