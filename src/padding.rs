use vstd::prelude::*;

verus! {

/// The smallest `h * 2^k` at least `n`.
pub open spec fn next_pow2_from(h: nat, n: nat) -> nat
    decreases (if h >= n {
        0
    } else {
        n - h
    }) as nat,
{
    if h >= n || h == 0 {
        h
    } else {
        next_pow2_from(2 * h, n)
    }
}

/// The height of a trace of `n` real rows: the next power of two, and at least 16.
pub open spec fn padded_height(n: nat) -> nat {
    next_pow2_from(16, n)
}

pub proof fn lemma_next_pow2_from(h: nat, n: nat)
    requires
        h >= 1,
    ensures
        next_pow2_from(h, n) >= n,
        next_pow2_from(h, n) >= h,
        next_pow2_from(h, n) == h || next_pow2_from(h, n) < 2 * n,
    decreases (if h >= n {
        0
    } else {
        n - h
    }) as nat,
{
    if h < n {
        lemma_next_pow2_from(2 * h, n);
    }
}

/// The number of rows for `n` real rows.
pub fn trace_height(n: usize) -> (h: usize)
    requires
        n <= 0x1000_0000,
    ensures
        h == padded_height(n as nat),
        h >= n,
        h >= 16,
        h == 16 || h < 2 * n,
{
    let mut h: usize = 16;
    proof {
        lemma_next_pow2_from(16, n as nat);
    }
    while h < n
        invariant
            16 <= h <= 0x2000_0000,
            n <= 0x1000_0000,
            next_pow2_from(h as nat, n as nat) == padded_height(n as nat),
        decreases 0x2000_0000 - h,
    {
        h = h * 2;
    }
    h
}

} // verus!
