//! Power-of-two capacity arithmetic for the growable instance buffer.
//!
//! Capacity grows to the smallest power of two that holds the incoming
//! records, so repeated small increases cost O(1) amortized per record.

use vstd::prelude::*;

verus! {

/// Whether `n` is a power of two (1, 2, 4, 8, ...).
pub open spec fn is_power_of_two(n: nat) -> bool
    decreases n,
{
    if n == 1 {
        true
    } else if n < 1 {
        false
    } else {
        n % 2 == 0 && is_power_of_two(n / 2)
    }
}

/// The smallest power of two that is at least `n` (and at least 1).
pub open spec fn next_pow2(n: nat) -> nat
    decreases n,
{
    if n <= 1 {
        1
    } else {
        2 * next_pow2((n + 1) / 2)
    }
}

pub proof fn lemma_next_pow2_ge(n: nat)
    ensures
        next_pow2(n) >= n,
        next_pow2(n) >= 1,
    decreases n,
{
    if n > 1 {
        lemma_next_pow2_ge((n + 1) / 2);
    }
}

pub proof fn lemma_next_pow2_is_pow2(n: nat)
    ensures
        is_power_of_two(next_pow2(n)),
    decreases n,
{
    if n > 1 {
        lemma_next_pow2_is_pow2((n + 1) / 2);
    }
}

/// Distinct powers of two are at least a factor of two apart.
pub proof fn lemma_pow2_double_le(a: nat, b: nat)
    requires
        is_power_of_two(a),
        is_power_of_two(b),
        a < b,
    ensures
        2 * a <= b,
    decreases b,
{
    if a >= 2 {
        lemma_pow2_double_le(a / 2, b / 2);
    }
}

/// `next_pow2(n)` is minimal: no smaller power of two is at least `n`.
pub proof fn lemma_next_pow2_min(n: nat, m: nat)
    requires
        is_power_of_two(m),
        m >= n,
    ensures
        next_pow2(n) <= m,
    decreases n,
{
    if n > 1 {
        let c = (n + 1) / 2;
        assert(m >= 2);
        assert(m % 2 == 0 && is_power_of_two(m / 2));
        assert(m / 2 >= c);
        lemma_next_pow2_min(c, m / 2);
    }
}

/// Smallest power of two at least `n`, by doubling.
pub fn next_power_of_two(n: u64) -> (r: u64)
    requires
        n <= 0x8000_0000_0000_0000u64,
    ensures
        r as nat == next_pow2(n as nat),
        r >= n,
        r >= 1,
{
    let mut p: u64 = 1;
    proof {
        lemma_next_pow2_ge(n as nat);
    }
    while p < n
        invariant
            1 <= p,
            n <= 0x8000_0000_0000_0000u64,
            is_power_of_two(p as nat),
            p as nat <= next_pow2(n as nat),
            next_pow2(n as nat) >= n,
        decreases 2 * n - p,
    {
        proof {
            lemma_next_pow2_is_pow2(n as nat);
            lemma_pow2_double_le(p as nat, next_pow2(n as nat));
        }
        p = p * 2;
    }
    proof {
        lemma_next_pow2_min(n as nat, p as nat);
    }
    p
}

} // verus!
