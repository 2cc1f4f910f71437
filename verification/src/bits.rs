use vstd::prelude::*;
use vstd::arithmetic::power2::{pow2, lemma_pow2_pos, lemma_pow2_unfold, lemma_pow2_adds, lemma2_to64};
use vstd::arithmetic::div_mod::{
    lemma_mod_sub_multiples_vanish,
    lemma_mod_add_multiples_vanish,
    lemma_mod_pos_bound,
    lemma_small_mod,
    lemma_mod_breakdown,
    lemma_div_denominator,
};
use vstd::bits::{
    low_bits_mask,
    lemma_u32_shr_is_div,
    lemma_u32_shl_is_mul,
    lemma_u32_low_bits_mask_is_mod,
    lemma_u32_pow2_no_overflow,
    lemma_u64_shl_is_mul,
    lemma_u64_low_bits_mask_is_mod,
    lemma_u64_pow2_no_overflow,
};

verus! {

/// Bit `pos` of `value`, counting from the least significant bit.
pub open spec fn bit_at(value: u32, pos: nat) -> bool {
    (value as nat / pow2(pos)) % 2 == 1
}

/// The unsigned field of `value` spanning bits `start..=end`.
pub open spec fn field(value: u32, start: nat, end: nat) -> nat {
    (value as nat / pow2(start)) % pow2((end - start + 1) as nat)
}

/// Returns whether bit `pos` of `value` is set.
pub fn bit(value: u32, pos: u32) -> (r: bool)
    requires
        pos < 32,
    ensures
        r == bit_at(value, pos as nat),
{
    let shifted: u32 = value >> pos;
    proof {
        lemma_u32_shr_is_div(value, pos);
        assert((shifted & 1 != 0) == (shifted % 2 == 1)) by (bit_vector);
    }
    shifted & 1 != 0
}

/// Extracts the bit field `start..=end` (inclusive) of `value`, shifted down
/// to bit 0.
pub fn bits(value: u32, start: u32, end: u32) -> (r: u32)
    requires
        start <= end,
        start < 32,
        end - start < 31,
    ensures
        r == field(value, start as nat, end as nat),
{
    let width: u32 = end - start + 1;
    proof {
        lemma_u32_pow2_no_overflow(width as nat);
        lemma_pow2_pos(width as nat);
        lemma_u32_shl_is_mul(1, width);
    }
    let mask: u32 = (1u32 << width) - 1;
    let shifted: u32 = value >> start;
    proof {
        lemma_u32_shr_is_div(value, start);
        assert(mask == low_bits_mask(width as nat));
        lemma_u32_low_bits_mask_is_mod(shifted, width as nat);
    }
    shifted & mask
}

/// The two's-complement value of the low `n` bits of `value`: bit `n - 1`
/// is the sign bit.
pub open spec fn sign_extended(value: u32, n: nat) -> int {
    let low: nat = value as nat % pow2(n);
    if low >= pow2((n - 1) as nat) {
        low - pow2(n)
    } else {
        low as int
    }
}

/// Interprets the low `num_bits` bits of `value` as a two's-complement number
/// and widens it to 32 bits.
pub fn sign_extend(value: u32, num_bits: u32) -> (r: i32)
    requires
        1 <= num_bits <= 32,
    ensures
        r as int == sign_extended(value, num_bits as nat),
{
    let shift: u32 = 32 - num_bits;
    let r: i32 = ((value << shift) as i32) >> shift;
    proof {
        let n: u64 = num_bits as u64;
        let v: u64 = value as u64;
        let full: u64 = 1u64 << n;
        let half: u64 = 1u64 << ((n - 1) as u64);
        let mask: u64 = (full - 1) as u64;
        assert(r as int == if (v & mask) >= half {
            (v & mask) as int - full as int
        } else {
            (v & mask) as int
        }) by (bit_vector)
            requires
                1 <= n <= 32,
                shift == 32 - n,
                v == value,
                full == 1u64 << n,
                half == 1u64 << ((n - 1) as u64),
                mask == (full - 1) as u64,
                r == ((value << shift) as i32) >> shift;
        lemma_u64_pow2_no_overflow(n as nat);
        lemma_u64_pow2_no_overflow((n - 1) as nat);
        lemma_pow2_pos(n as nat);
        lemma_u64_shl_is_mul(1, n);
        lemma_u64_shl_is_mul(1, (n - 1) as u64);
        assert(mask == low_bits_mask(n as nat));
        lemma_u64_low_bits_mask_is_mod(v, n as nat);
    }
    r
}

/// A single bit is the one-bit field at its position.
pub proof fn lemma_bit_is_one_bit_field(value: u32, pos: nat)
    ensures
        bit_at(value, pos) <==> field(value, pos, pos) == 1,
{
    lemma2_to64();
}

/// Sign extension of an `n`-bit field gives the one number in
/// `-2^(n-1) .. 2^(n-1)` that agrees with `value` modulo `2^n`; a field whose
/// sign bit is clear keeps its value.
pub proof fn lemma_sign_extended_range(value: u32, n: nat)
    requires
        1 <= n <= 32,
    ensures
        -pow2((n - 1) as nat) <= sign_extended(value, n) < pow2((n - 1) as nat),
        sign_extended(value, n) % (pow2(n) as int) == value as nat % pow2(n),
        (value as nat % pow2(n)) < pow2((n - 1) as nat) ==> sign_extended(value, n) == value as nat
            % pow2(n),
{
    let m: int = pow2(n) as int;
    let low: int = (value as nat % pow2(n)) as int;
    lemma_pow2_pos(n);
    lemma_pow2_unfold(n);
    lemma_mod_pos_bound(value as int, m);
    lemma_small_mod(low as nat, m as nat);
    lemma_mod_sub_multiples_vanish(low, m);
}

/// Sign extension undoes wrapping: a number in `-2^(n-1) .. 2^(n-1)` whose
/// low `n` bits are those of `value` is what sign extension of `value` gives.
pub proof fn lemma_sign_extended_inverts_wrapping(value: u32, n: nat, x: int)
    requires
        1 <= n <= 32,
        -pow2((n - 1) as nat) <= x < pow2((n - 1) as nat),
        value as int % (pow2(n) as int) == x % (pow2(n) as int),
    ensures
        sign_extended(value, n) == x,
{
    let m: int = pow2(n) as int;
    lemma_pow2_pos(n);
    lemma_pow2_unfold(n);
    if x >= 0 {
        lemma_small_mod(x as nat, m as nat);
    } else {
        lemma_mod_add_multiples_vanish(x, m);
        lemma_small_mod((m + x) as nat, m as nat);
    }
}

/// Bit `pos` is set exactly when the remainder of `value` modulo
/// `2^(pos + 1)` reaches `2^pos`; so no bit at or above `pos` is set in a value
/// below `2^pos`, and `2^pos` has bit `pos` set.
pub proof fn lemma_bit_by_remainder(value: u32, pos: nat)
    requires
        pos < 32,
    ensures
        bit_at(value, pos) <==> value as nat % pow2(pos + 1) >= pow2(pos),
        value < pow2(pos) ==> !bit_at(value, pos),
        bit_at(pow2(pos) as u32, pos),
{
    lemma_pow2_pos(pos);
    lemma_pow2_adds(pos, 1);
    lemma2_to64();
    lemma_u32_pow2_no_overflow(pos);
    let p: int = pow2(pos) as int;
    lemma_mod_breakdown(value as int, p, 2);
    lemma_mod_pos_bound(value as int, p);
    lemma_mod_pos_bound(value as int / p, 2);
    let b: int = (value as int / p) % 2;
    if b == 1 {
        assert(p * b == p) by (nonlinear_arith)
            requires
                b == 1,
        ;
    } else {
        assert(p * b == 0) by (nonlinear_arith)
            requires
                b == 0,
        ;
    }
    if value < pow2(pos) {
        lemma_small_mod(value as nat, pow2(pos + 1));
    }
    let q: int = pow2(pos) as int;
    lemma_mod_breakdown(q, p, 2);
    lemma_small_mod(0, p as nat);
    assert(q / p == 1) by {
        vstd::arithmetic::div_mod::lemma_div_by_multiple(1, p);
    }
    assert(pow2(pos) as u32 as nat == pow2(pos));
}

/// A field is its lowest bit plus twice the field above that bit; a one-bit
/// field is that bit. So every field is the sum of its bits, each weighted by
/// its place within the field.
pub proof fn lemma_field_is_sum_of_bits(value: u32, start: nat, end: nat)
    requires
        start <= end,
    ensures
        field(value, start, start) == (if bit_at(value, start) { 1nat } else { 0nat }),
        start < end ==> field(value, start, end) == (if bit_at(value, start) {
            1nat
        } else {
            0nat
        }) + 2 * field(value, start + 1, end),
{
    lemma2_to64();
    lemma_pow2_pos(start);
    let q: int = value as int / pow2(start) as int;
    if start < end {
        let w: nat = (end - start + 1) as nat;
        lemma_pow2_unfold(w);
        lemma_pow2_pos((w - 1) as nat);
        lemma_mod_breakdown(q, 2, pow2((w - 1) as nat) as int);
        lemma_div_denominator(value as int, pow2(start) as int, 2);
        lemma_pow2_adds(start, 1);
        assert((end - (start + 1) + 1) as nat == (w - 1) as nat);
    }
}

/// A field of all-ones bits reads `2^w - 1` for its width `w`.
pub proof fn lemma_all_ones_field(start: nat, end: nat)
    requires
        start <= end < 32,
    ensures
        field(u32::MAX, start, end) == pow2((end - start + 1) as nat) - 1,
    decreases end - start,
{
    let s: u32 = start as u32;
    assert((0xFFFF_FFFFu32 >> s) & 1 == 1) by (bit_vector)
        requires
            s < 32,
    ;
    lemma_u32_shr_is_div(0xFFFF_FFFFu32, s);
    let shifted: u32 = 0xFFFF_FFFFu32 >> s;
    assert((shifted & 1 == 1) == (shifted % 2 == 1)) by (bit_vector);
    assert(bit_at(u32::MAX, start));
    lemma_field_is_sum_of_bits(u32::MAX, start, end);
    lemma2_to64();
    if start < end {
        lemma_all_ones_field(start + 1, end);
        lemma_pow2_unfold((end - start + 1) as nat);
        assert((end - (start + 1) + 1) as nat == (end - start) as nat);
    }
}

} // verus!
