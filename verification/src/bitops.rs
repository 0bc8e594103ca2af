//! Bit-level model of a packed record: every container value is carried as a
//! `u128`, wide enough for the largest supported container, and a field is a
//! contiguous run of bits described by its start position and its width.

use vstd::prelude::*;
use vstd::arithmetic::power2::{
    pow2, lemma_pow2_pos, lemma_pow2_unfold, lemma_pow2_adds, lemma2_to64,
};
use vstd::arithmetic::div_mod::{lemma_mod_breakdown, lemma_small_mod};

verus! {

/// The `n` lowest bits set, all others clear: the all-ones pattern of an
/// `n`-bit container, and also `2^n - 1`.
pub open spec fn ones(n: u128) -> u128
    recommends
        n <= 128,
{
    if n == 0 {
        0
    } else if n >= 128 {
        u128::MAX
    } else {
        u128::MAX >> ((128 - n) as u128)
    }
}

/// The mask of a field that occupies bits `[start, start + size)`: 1s exactly
/// at the field's bit positions.
pub open spec fn mask_bits(start: u128, size: u128) -> u128
    recommends
        start + size <= 128,
{
    if size == 0 {
        0
    } else {
        ones(size) << start
    }
}

/// `x` reduced to `size` bits, i.e. `x mod 2^size`.
pub open spec fn wrap_to_width(x: u128, size: u128) -> u128
    recommends
        size <= 128,
{
    x & ones(size)
}

/// The value a field holds in container value `v`: the field's bits shifted
/// down to the low end.
pub open spec fn field_get(v: u128, start: u128, size: u128) -> u128
    recommends
        start + size <= 128,
{
    (v >> start) & ones(size)
}

/// The container value after writing `x` (reduced modulo `2^size`) into the
/// field at `[start, start + size)` of a `cbits`-wide container: the field's
/// old bits are cleared and the reduced value is shifted into place.
pub open spec fn field_set(v: u128, start: u128, size: u128, cbits: u128, x: u128) -> u128
    recommends
        start + size <= cbits <= 128,
{
    (v & (ones(cbits) ^ mask_bits(start, size))) | (wrap_to_width(x, size) << start)
}

/// Computes the all-ones pattern of a `width`-bit container.
pub fn all_ones(width: usize) -> (r: u128)
    requires
        width <= 128,
    ensures
        r == ones(width as u128),
{
    if width == 0 {
        0
    } else {
        let r = u128::MAX >> ((128 - width) as u128);
        proof {
            assert(u128::MAX >> 0u128 == u128::MAX) by (bit_vector);
        }
        r
    }
}

/// The number of set bits in `x`.
pub open spec fn count_ones(x: u128) -> int
    decreases x,
{
    if x == 0 {
        0
    } else {
        count_ones(x / 2) + (x % 2)
    }
}

/// The all-ones pattern of `n` bits has exactly `n` set bits.
pub proof fn lemma_count_ones_all(n: u128)
    requires
        n <= 128,
    ensures
        count_ones(ones(n)) == n,
    decreases n,
{
    if n == 0 {
        assert(count_ones(0) == 0);
    } else {
        lemma_count_ones_all((n - 1) as u128);
        assert(ones(n) / 2 == ones((n - 1) as u128) && ones(n) % 2 == 1 && ones(n) != 0)
            by (bit_vector)
            requires
                1 <= n <= 128,
        ;
    }
}

/// The all-ones pattern of `n` bits is the numeric value `2^n - 1`.
pub proof fn lemma_ones_value(n: u128)
    requires
        n <= 128,
    ensures
        ones(n) as nat + 1 == pow2(n as nat),
    decreases n,
{
    if n == 0 {
        assert(pow2(0) == 1) by {
            lemma2_to64();
        }
    } else {
        lemma_ones_value((n - 1) as u128);
        lemma_pow2_unfold(n as nat);
        assert(ones(n) == 2 * ones((n - 1) as u128) + 1) by (bit_vector)
            requires
                1 <= n <= 128,
        ;
    }
}

/// Reducing to `size` bits is exactly the remainder modulo `2^size`.
pub proof fn lemma_wrap_is_mod(x: u128, size: u128)
    requires
        size <= 128,
    ensures
        wrap_to_width(x, size) as nat == (x as nat) % pow2(size as nat),
    decreases size,
{
    if size == 0 {
        assert(x & ones(0) == 0) by (bit_vector);
        assert(pow2(0) == 1) by {
            lemma2_to64();
        }
    } else if size == 128 {
        assert(x & ones(128) == x) by (bit_vector);
        assert(pow2(128) == pow2(64) * pow2(64)) by {
            lemma_pow2_adds(64, 64);
        }
        lemma2_to64();
        assert((x as nat) < pow2(128));
        lemma_small_mod(x as nat, pow2(128));
    } else {
        let smaller: u128 = (size - 1) as u128;
        lemma_wrap_is_mod(x / 2, smaller);
        lemma_pow2_unfold(size as nat);
        lemma_pow2_pos(smaller as nat);
        lemma_mod_breakdown(x as int, 2, pow2(smaller as nat) as int);
        assert(x & ones(size) == 2 * ((x / 2) & ones((size - 1) as u128)) + (x % 2))
            by (bit_vector)
            requires
                1 <= size < 128,
        ;
    }
}

/// A value that already fits in `size` bits is unchanged by the reduction.
pub proof fn lemma_wrap_in_range(x: u128, size: u128)
    by (bit_vector)
    requires
        size <= 128,
        x <= ones(size),
    ensures
        wrap_to_width(x, size) == x,
{
}

/// A field value always fits in the field's width.
pub proof fn lemma_get_in_range(v: u128, start: u128, size: u128)
    by (bit_vector)
    requires
        start + size <= 128,
    ensures
        field_get(v, start, size) <= ones(size),
{
}

/// Writing a field keeps the container's unused high-order bits clear.
pub proof fn lemma_set_in_container(v: u128, start: u128, size: u128, cbits: u128, x: u128)
    by (bit_vector)
    requires
        start + size <= cbits <= 128,
        v & ones(cbits) == v,
    ensures
        field_set(v, start, size, cbits, x) & ones(cbits) == field_set(v, start, size, cbits, x),
{
}

/// Round trip: after writing `x` into a field, reading that field gives back
/// `x` reduced to the field's width; in particular it gives back `x` itself
/// whenever `x` already fits.
#[verifier::rlimit(100)]
pub proof fn lemma_set_then_get(v: u128, start: u128, size: u128, cbits: u128, x: u128)
    by (bit_vector)
    requires
        start + size <= cbits <= 128,
    ensures
        field_get(field_set(v, start, size, cbits, x), start, size) == wrap_to_width(x, size),
        x <= ones(size) ==> field_get(field_set(v, start, size, cbits, x), start, size) == x,
{
}

/// Frame condition: writing one field leaves every bit range disjoint from it
/// unchanged.
#[verifier::rlimit(100)]
pub proof fn lemma_set_frame(
    v: u128,
    start: u128,
    size: u128,
    cbits: u128,
    x: u128,
    other_start: u128,
    other_size: u128,
)
    by (bit_vector)
    requires
        start + size <= cbits <= 128,
        other_start + other_size <= cbits,
        other_start + other_size <= start || start + size <= other_start,
    ensures
        field_get(field_set(v, start, size, cbits, x), other_start, other_size) == field_get(
            v,
            other_start,
            other_size,
        ),
{
}

/// Overflow law: writing a value too wide for the field stores exactly what
/// writing `x mod 2^size` would store; the two container values are equal.
pub proof fn lemma_set_wrapped(v: u128, start: u128, size: u128, cbits: u128, x: u128)
    by (bit_vector)
    requires
        start + size <= cbits <= 128,
    ensures
        field_set(v, start, size, cbits, x) == field_set(
            v,
            start,
            size,
            cbits,
            wrap_to_width(x, size),
        ),
{
}

/// Toggling a bit range twice restores the container value exactly.
pub proof fn lemma_toggle_self_inverse(v: u128, mask: u128)
    by (bit_vector)
    ensures
        (v ^ mask) ^ mask == v,
{
}

/// Masks of disjoint bit ranges are disjoint.
pub proof fn lemma_masks_disjoint(start1: u128, size1: u128, start2: u128, size2: u128)
    by (bit_vector)
    requires
        start1 + size1 <= start2,
        start2 + size2 <= 128,
    ensures
        mask_bits(start1, size1) & mask_bits(start2, size2) == 0,
{
}

/// Packing step: the bits below `start` together with a field at
/// `[start, start + size)` cover exactly the bits below `start + size`.
pub proof fn lemma_mask_union_extend(start: u128, size: u128)
    by (bit_vector)
    requires
        start + size <= 128,
    ensures
        ones(start) | mask_bits(start, size) == ones((start + size) as u128),
{
}

/// Single-bit operations stay within the container: OR-ing a bit in, AND-ing
/// the complement of a mask, and XOR-ing a contained mask never touch the
/// unused high-order bits.
pub proof fn lemma_bit_ops_in_container(v: u128, mask: u128, cbits: u128)
    by (bit_vector)
    requires
        cbits <= 128,
        v & ones(cbits) == v,
        mask & ones(cbits) == mask,
    ensures
        (v | mask) & ones(cbits) == (v | mask),
        (v ^ mask) & ones(cbits) == (v ^ mask),
        (v & (ones(cbits) ^ mask)) & ones(cbits) == (v & (ones(cbits) ^ mask)),
{
}

/// Setting a single-bit field by OR-ing its mask makes that field read 1.
pub proof fn lemma_bit_set_get(v: u128, start: u128, cbits: u128)
    by (bit_vector)
    requires
        start + 1 <= cbits <= 128,
    ensures
        field_get(v | mask_bits(start, 1), start, 1) == 1,
{
}

/// Clearing a single-bit field by AND-ing the complement of its mask makes
/// that field read 0.
pub proof fn lemma_bit_unset_get(v: u128, start: u128, cbits: u128)
    by (bit_vector)
    requires
        start + 1 <= cbits <= 128,
    ensures
        field_get(v & (ones(cbits) ^ mask_bits(start, 1)), start, 1) == 0,
{
}

/// Toggling a single-bit field by XOR-ing its mask flips that field's bit.
pub proof fn lemma_bit_toggle_get(v: u128, start: u128, cbits: u128)
    by (bit_vector)
    requires
        start + 1 <= cbits <= 128,
    ensures
        field_get(v ^ mask_bits(start, 1), start, 1) == field_get(v, start, 1) ^ 1,
{
}

/// Frame condition for the single-bit operations: each one leaves every bit
/// range disjoint from the touched bit unchanged.
#[verifier::rlimit(100)]
pub proof fn lemma_bit_op_frame(
    v: u128,
    start: u128,
    cbits: u128,
    other_start: u128,
    other_size: u128,
)
    by (bit_vector)
    requires
        start + 1 <= cbits <= 128,
        other_start + other_size <= cbits,
        other_start + other_size <= start || start + 1 <= other_start,
    ensures
        field_get(v | mask_bits(start, 1), other_start, other_size) == field_get(
            v,
            other_start,
            other_size,
        ),
        field_get(v & (ones(cbits) ^ mask_bits(start, 1)), other_start, other_size) == field_get(
            v,
            other_start,
            other_size,
        ),
        field_get(v ^ mask_bits(start, 1), other_start, other_size) == field_get(
            v,
            other_start,
            other_size,
        ),
{
}

/// A field mask lies within its container: its bits are among the low
/// `cbits` bits, and for a non-empty field the mask is non-zero.
pub proof fn lemma_mask_in_container(start: u128, size: u128, cbits: u128)
    by (bit_vector)
    requires
        start + size <= cbits <= 128,
    ensures
        mask_bits(start, size) & ones(cbits) == mask_bits(start, size),
        size > 0 ==> mask_bits(start, size) != 0,
{
}

} // verus!
