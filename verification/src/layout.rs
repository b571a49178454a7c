//! Index and bit-layout arithmetic for the ring.
//!
//! The entries slice has a power-of-two length, so a monotonic 32-bit
//! index folds into a valid array position with a bit mask of
//! `length - 1`. In "big" mode a logical entry spans two physical slots,
//! and the masked index is doubled with a one-bit shift.

use crate::errors::RingBufferError;
use vstd::arithmetic::power2::{
    lemma2_to64, lemma_pow2_strictly_increases, lemma_pow2_unfold, pow2,
};
use vstd::bits::lemma_u32_low_bits_mask_is_mod;
use vstd::prelude::*;

verus! {

/// Whether `n` is a power of two. Zero is not: the smallest power of two
/// is one.
pub open spec fn is_power_of_two(n: nat) -> bool
    decreases n,
{
    if n == 0 {
        false
    } else if n == 1 {
        true
    } else {
        n % 2 == 0 && is_power_of_two(n / 2)
    }
}

/// A nonzero 32-bit value is a power of two exactly when clearing its
/// lowest set bit leaves zero.
pub proof fn lemma_power_of_two_bits(n: u32)
    ensures
        (n != 0 && n & ((n - 1) as u32) == 0) <==> is_power_of_two(n as nat),
    decreases n,
{
    if n == 0 {
    } else if n == 1 {
        assert(1u32 & 0u32 == 0) by (bit_vector);
    } else {
        lemma_power_of_two_bits(n / 2);
        assert(n / 2 != 0);
        assert((n & ((n - 1) as u32) == 0) <==> (n % 2 == 0 && (n / 2) & ((n / 2 - 1) as u32)
            == 0)) by (bit_vector)
            requires
                n >= 2,
        ;
    }
}

/// The conditions a ring layout must meet: the entries length fits a
/// 32-bit counter, is a power of two, and the mask is exactly
/// `length - 1`.
pub open spec fn valid_ring_layout(len: nat, mask: u32) -> bool {
    &&& len <= u32::MAX
    &&& is_power_of_two(len)
    &&& mask == len - 1
}

/// The error reported for an invalid ring layout. The checks apply in
/// order: an over-long slice first, then the power-of-two requirement,
/// then the mask value.
pub open spec fn construction_error(len: nat, mask: u32) -> RingBufferError
    recommends
        !valid_ring_layout(len, mask),
{
    if len > u32::MAX {
        RingBufferError::EntriesSliceTooLong
    } else if !is_power_of_two(len) {
        RingBufferError::LengthNotPowerOfTwo
    } else {
        RingBufferError::InvalidMaskValue
    }
}

/// Whether a 32-bit value is a power of two, decided with the
/// lowest-set-bit trick.
pub fn is_power_of_two_u32(n: u32) -> (r: bool)
    ensures
        r == is_power_of_two(n as nat),
{
    proof {
        lemma_power_of_two_bits(n);
    }
    n != 0 && (n & (n - 1)) == 0
}

/// Validates a ring layout, reporting the specific mismatch.
pub fn check_ring_layout(len: usize, mask: u32) -> (r: Result<(), RingBufferError>)
    ensures
        r is Ok <==> valid_ring_layout(len as nat, mask),
        r is Err ==> r->Err_0 == construction_error(len as nat, mask),
{
    if len as u64 > u32::MAX as u64 {
        return Err(RingBufferError::EntriesSliceTooLong);
    }
    let len32 = len as u32;
    if !is_power_of_two_u32(len32) {
        return Err(RingBufferError::LengthNotPowerOfTwo);
    }
    proof {
        lemma_power_of_two_positive(len as nat);
    }
    if mask != len32 - 1 {
        return Err(RingBufferError::InvalidMaskValue);
    }
    Ok(())
}

/// A power of two is at least one.
pub proof fn lemma_power_of_two_positive(n: nat)
    requires
        is_power_of_two(n),
    ensures
        n >= 1,
{
}

/// The physical slot position that a reservation index addresses: the
/// index folded into the entries length, doubled when a logical entry
/// spans two physical slots.
pub open spec fn slot_of(index: u32, len: nat, shift: u32) -> nat
    recommends
        is_power_of_two(len),
        shift <= 1,
{
    ((index as nat) % len) * (if shift == 0 {
        1nat
    } else {
        2nat
    })
}

/// Every power of two is two raised to some exponent.
pub proof fn lemma_power_of_two_exponent(n: nat)
    requires
        is_power_of_two(n),
    ensures
        exists|k: nat| n == pow2(k),
    decreases n,
{
    if n == 1 {
        lemma2_to64();
        assert(n == pow2(0));
    } else {
        lemma_power_of_two_exponent(n / 2);
        let k = choose|k: nat| n / 2 == pow2(k);
        lemma_pow2_unfold(k + 1);
        assert(n == pow2(k + 1));
    }
}

/// Masking a 32-bit index with `len - 1` folds it into `[0, len)` when
/// `len` is a power of two.
proof fn lemma_mask_folds_index(index: u32, len32: u32)
    requires
        is_power_of_two(len32 as nat),
    ensures
        index & ((len32 - 1) as u32) == index % len32,
{
    lemma_power_of_two_exponent(len32 as nat);
    let k = choose|k: nat| len32 as nat == pow2(k);
    lemma2_to64();
    if k >= 32 {
        if k > 32 {
            lemma_pow2_strictly_increases(32, k);
        }
        assert(false);
    }
    lemma_u32_low_bits_mask_is_mod(index, k);
}

/// Computes the physical slot position for a reservation index, as a
/// defensive bounds check: `None` when the doubled position of a big-mode
/// entry would fall outside the entries slice.
pub fn slot_position(index: u32, mask: u32, shift: u32, len: usize) -> (r: Option<usize>)
    requires
        valid_ring_layout(len as nat, mask),
        shift <= 1,
    ensures
        match r {
            Some(pos) => pos == slot_of(index, len as nat, shift) && pos < len,
            None => slot_of(index, len as nat, shift) >= len,
        },
        shift == 0 ==> r is Some,
{
    proof {
        lemma_mask_folds_index(index, len as u32);
        if shift == 0 {
            lemma_slot_in_range_normal(index, len as nat);
        }
    }
    let masked = index & mask;
    let pos = (masked as u64) << shift;
    proof {
        let m = masked as u64;
        let s = shift;
        assert(s == 0 ==> (m << s) == m) by (bit_vector);
        assert(s == 1 ==> (m << s) == 2 * m) by (bit_vector)
            requires
                m < 0x1_0000_0000,
        ;
    }
    if pos < len as u64 {
        Some(pos as usize)
    } else {
        None
    }
}

/// In normal mode every masked index is a valid slot position: the
/// defensive bounds check never fires.
pub proof fn lemma_slot_in_range_normal(index: u32, len: nat)
    requires
        is_power_of_two(len),
    ensures
        slot_of(index, len, 0) < len,
{
    lemma_power_of_two_positive(len);
}

} // verus!
