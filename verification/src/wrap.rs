//! Wrapping arithmetic on the 32-bit ring counters.
//!
//! The `head` and `tail` counters are monotonic with wraparound: they run
//! through the full 32-bit range and wrap back to zero. Distances between
//! counters are therefore taken modulo 2^32, and a counter advances by
//! wrapping increments.

use vstd::arithmetic::div_mod::{lemma_mod_add_multiples_vanish, lemma_small_mod};
use vstd::prelude::*;

verus! {

/// The wrapping difference `a - b` of two 32-bit counters: the number of
/// increments that lead from `b` to `a`.
pub open spec fn wrap_sub(a: u32, b: u32) -> u32 {
    if a >= b {
        (a - b) as u32
    } else {
        (a - b + 0x1_0000_0000) as u32
    }
}

/// A 32-bit counter advanced by `k` wrapping increments, for `k` below the
/// counter span 2^32.
pub open spec fn wrap_add(a: u32, k: int) -> u32
    recommends
        0 <= k < 0x1_0000_0000,
{
    if a + k <= u32::MAX {
        (a + k) as u32
    } else {
        (a + k - 0x1_0000_0000) as u32
    }
}

/// A 32-bit counter advanced by one wrapping increment.
pub open spec fn wrap_inc(a: u32) -> u32 {
    wrap_add(a, 1)
}

/// The wrapping difference is exactly the mathematical difference taken
/// modulo 2^32.
pub proof fn lemma_wrap_sub_is_mod(a: u32, b: u32)
    ensures
        wrap_sub(a, b) == (a - b) % 0x1_0000_0000,
{
    if a >= b {
        lemma_small_mod((a - b) as nat, 0x1_0000_0000);
    } else {
        lemma_mod_add_multiples_vanish(a - b, 0x1_0000_0000);
        lemma_small_mod((a - b + 0x1_0000_0000) as nat, 0x1_0000_0000);
    }
}

/// Advancing a counter twice adds the two step counts, as long as the
/// total stays below the counter span.
pub proof fn lemma_wrap_add_assoc(a: u32, i: int, j: int)
    requires
        0 <= i,
        0 <= j,
        i + j < 0x1_0000_0000,
    ensures
        wrap_add(wrap_add(a, i), j) == wrap_add(a, i + j),
{
}

/// The wrapping difference recovers the step count of a wrapping advance.
pub proof fn lemma_wrap_sub_of_add(a: u32, k: int)
    requires
        0 <= k < 0x1_0000_0000,
    ensures
        wrap_sub(wrap_add(a, k), a) == k,
{
}

/// Wrapping distances add up across an intermediate counter value, as long
/// as the total stays below the counter span.
pub proof fn lemma_wrap_sub_chain(a: u32, b: u32, c: u32)
    requires
        wrap_sub(a, b) + wrap_sub(b, c) < 0x1_0000_0000,
    ensures
        wrap_sub(a, c) == wrap_sub(a, b) + wrap_sub(b, c),
{
}

/// Distinct step counts below the counter span land on distinct counter
/// values: within one span, no reserved index is ever handed out twice.
pub proof fn lemma_wrap_add_injective(a: u32, i: int, j: int)
    requires
        0 <= i < 0x1_0000_0000,
        0 <= j < 0x1_0000_0000,
        i != j,
    ensures
        wrap_add(a, i) != wrap_add(a, j),
{
}

/// The number of entries available between two counter readings: the
/// wrapping difference `tail - head`.
pub fn ring_occupancy(head: u32, tail: u32) -> (r: u32)
    ensures
        r == wrap_sub(tail, head),
{
    tail.wrapping_sub(head)
}

} // verus!
