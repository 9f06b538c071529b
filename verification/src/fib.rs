//! The deterministic function computed by the guest program: the Fibonacci
//! recurrence over fixed-width unsigned 64-bit arithmetic that wraps on
//! overflow. Host and guest compute it with the same function, so the two
//! sides agree bit for bit on every index.

use vstd::prelude::*;

verus! {

/// `F(n)` under wrapping 64-bit arithmetic: `F(0) = 0`, `F(1) = 1`,
/// `F(k) = (F(k-1) + F(k-2)) mod 2^64`. Wrapping is the documented overflow
/// policy of the pipeline's example function.
pub open spec fn fib(n: int) -> nat
    decreases n,
{
    if n <= 0 {
        0
    } else if n == 1 {
        1
    } else {
        (fib(n - 1) + fib(n - 2)) % 0x1_0000_0000_0000_0000
    }
}

/// Every value of `fib` fits in 64 bits.
pub proof fn lemma_fib_bounded(n: int)
    ensures
        fib(n) < 0x1_0000_0000_0000_0000,
{
    if n <= 0 {
    } else if n == 1 {
    }
}

/// Computes the nth Fibonacci number
pub fn fibonacci(n: u32) -> (r: u64)
    ensures
        r == fib(n as int),
{
    if n == 0 {
        return 0;
    }
    if n == 1 {
        return 1;
    }

    let mut a: u64 = 0;
    let mut b: u64 = 1;

    let mut i: u32 = 1;
    while i < n
        invariant
            1 <= i <= n,
            a == fib(i - 1),
            b == fib(i as int),
        decreases n - i,
    {
        proof {
            lemma_fib_bounded(i - 1);
            lemma_fib_bounded(i as int);
        }
        let temp = a.wrapping_add(b);
        a = b;
        b = temp;
        i = i + 1;
    }

    b
}

} // verus!
