//! Leading zero bits and magnitude: a value with `z` leading zero bits in a
//! word of `w` bits lies between `2^(w - 1 - z)` and `2^(w - z)`.
use vstd::arithmetic::power2::{lemma2_to64, lemma_pow2_pos, lemma_pow2_unfold, pow2};
use vstd::bits::lemma_u32_shr_is_div;
use vstd::prelude::*;
use vstd::std_specs::bits::{axiom_u32_leading_zeros, u32_leading_zeros, u64_leading_zeros};

verus! {

/// The number of zero bits above the highest set bit of a 128-bit value;
/// 128 for zero.
pub open spec fn u128_leading_zeros(v: u128) -> u32
    decreases v,
{
    if v == 0 {
        128
    } else {
        (u128_leading_zeros(v / 2) - 1) as u32
    }
}

/// `u128::leading_zeros` of the standard library counts the zero bits above
/// the highest set bit, and gives 128 for zero. Taken on trust.
pub assume_specification[ u128::leading_zeros ](v: u128) -> (r: u32)
    ensures
        r == u128_leading_zeros(v),
;

/// The powers of two from `2^65` to `2^128`.
pub proof fn lemma_pow2_values_above_64()
    ensures
        pow2(65) == 0x2_0000_0000_0000_0000,
        pow2(66) == 0x4_0000_0000_0000_0000,
        pow2(67) == 0x8_0000_0000_0000_0000,
        pow2(68) == 0x10_0000_0000_0000_0000,
        pow2(69) == 0x20_0000_0000_0000_0000,
        pow2(70) == 0x40_0000_0000_0000_0000,
        pow2(71) == 0x80_0000_0000_0000_0000,
        pow2(72) == 0x100_0000_0000_0000_0000,
        pow2(73) == 0x200_0000_0000_0000_0000,
        pow2(74) == 0x400_0000_0000_0000_0000,
        pow2(75) == 0x800_0000_0000_0000_0000,
        pow2(76) == 0x1000_0000_0000_0000_0000,
        pow2(77) == 0x2000_0000_0000_0000_0000,
        pow2(78) == 0x4000_0000_0000_0000_0000,
        pow2(79) == 0x8000_0000_0000_0000_0000,
        pow2(80) == 0x1_0000_0000_0000_0000_0000,
        pow2(81) == 0x2_0000_0000_0000_0000_0000,
        pow2(82) == 0x4_0000_0000_0000_0000_0000,
        pow2(83) == 0x8_0000_0000_0000_0000_0000,
        pow2(84) == 0x10_0000_0000_0000_0000_0000,
        pow2(85) == 0x20_0000_0000_0000_0000_0000,
        pow2(86) == 0x40_0000_0000_0000_0000_0000,
        pow2(87) == 0x80_0000_0000_0000_0000_0000,
        pow2(88) == 0x100_0000_0000_0000_0000_0000,
        pow2(89) == 0x200_0000_0000_0000_0000_0000,
        pow2(90) == 0x400_0000_0000_0000_0000_0000,
        pow2(91) == 0x800_0000_0000_0000_0000_0000,
        pow2(92) == 0x1000_0000_0000_0000_0000_0000,
        pow2(93) == 0x2000_0000_0000_0000_0000_0000,
        pow2(94) == 0x4000_0000_0000_0000_0000_0000,
        pow2(95) == 0x8000_0000_0000_0000_0000_0000,
        pow2(96) == 0x1_0000_0000_0000_0000_0000_0000,
        pow2(97) == 0x2_0000_0000_0000_0000_0000_0000,
        pow2(98) == 0x4_0000_0000_0000_0000_0000_0000,
        pow2(99) == 0x8_0000_0000_0000_0000_0000_0000,
        pow2(100) == 0x10_0000_0000_0000_0000_0000_0000,
        pow2(101) == 0x20_0000_0000_0000_0000_0000_0000,
        pow2(102) == 0x40_0000_0000_0000_0000_0000_0000,
        pow2(103) == 0x80_0000_0000_0000_0000_0000_0000,
        pow2(104) == 0x100_0000_0000_0000_0000_0000_0000,
        pow2(105) == 0x200_0000_0000_0000_0000_0000_0000,
        pow2(106) == 0x400_0000_0000_0000_0000_0000_0000,
        pow2(107) == 0x800_0000_0000_0000_0000_0000_0000,
        pow2(108) == 0x1000_0000_0000_0000_0000_0000_0000,
        pow2(109) == 0x2000_0000_0000_0000_0000_0000_0000,
        pow2(110) == 0x4000_0000_0000_0000_0000_0000_0000,
        pow2(111) == 0x8000_0000_0000_0000_0000_0000_0000,
        pow2(112) == 0x1_0000_0000_0000_0000_0000_0000_0000,
        pow2(113) == 0x2_0000_0000_0000_0000_0000_0000_0000,
        pow2(114) == 0x4_0000_0000_0000_0000_0000_0000_0000,
        pow2(115) == 0x8_0000_0000_0000_0000_0000_0000_0000,
        pow2(116) == 0x10_0000_0000_0000_0000_0000_0000_0000,
        pow2(117) == 0x20_0000_0000_0000_0000_0000_0000_0000,
        pow2(118) == 0x40_0000_0000_0000_0000_0000_0000_0000,
        pow2(119) == 0x80_0000_0000_0000_0000_0000_0000_0000,
        pow2(120) == 0x100_0000_0000_0000_0000_0000_0000_0000,
        pow2(121) == 0x200_0000_0000_0000_0000_0000_0000_0000,
        pow2(122) == 0x400_0000_0000_0000_0000_0000_0000_0000,
        pow2(123) == 0x800_0000_0000_0000_0000_0000_0000_0000,
        pow2(124) == 0x1000_0000_0000_0000_0000_0000_0000_0000,
        pow2(125) == 0x2000_0000_0000_0000_0000_0000_0000_0000,
        pow2(126) == 0x4000_0000_0000_0000_0000_0000_0000_0000,
        pow2(127) == 0x8000_0000_0000_0000_0000_0000_0000_0000,
        pow2(128) == 0x1_0000_0000_0000_0000_0000_0000_0000_0000,
{
    lemma2_to64();
    lemma_pow2_unfold(65);
    lemma_pow2_unfold(66);
    lemma_pow2_unfold(67);
    lemma_pow2_unfold(68);
    lemma_pow2_unfold(69);
    lemma_pow2_unfold(70);
    lemma_pow2_unfold(71);
    lemma_pow2_unfold(72);
    lemma_pow2_unfold(73);
    lemma_pow2_unfold(74);
    lemma_pow2_unfold(75);
    lemma_pow2_unfold(76);
    lemma_pow2_unfold(77);
    lemma_pow2_unfold(78);
    lemma_pow2_unfold(79);
    lemma_pow2_unfold(80);
    lemma_pow2_unfold(81);
    lemma_pow2_unfold(82);
    lemma_pow2_unfold(83);
    lemma_pow2_unfold(84);
    lemma_pow2_unfold(85);
    lemma_pow2_unfold(86);
    lemma_pow2_unfold(87);
    lemma_pow2_unfold(88);
    lemma_pow2_unfold(89);
    lemma_pow2_unfold(90);
    lemma_pow2_unfold(91);
    lemma_pow2_unfold(92);
    lemma_pow2_unfold(93);
    lemma_pow2_unfold(94);
    lemma_pow2_unfold(95);
    lemma_pow2_unfold(96);
    lemma_pow2_unfold(97);
    lemma_pow2_unfold(98);
    lemma_pow2_unfold(99);
    lemma_pow2_unfold(100);
    lemma_pow2_unfold(101);
    lemma_pow2_unfold(102);
    lemma_pow2_unfold(103);
    lemma_pow2_unfold(104);
    lemma_pow2_unfold(105);
    lemma_pow2_unfold(106);
    lemma_pow2_unfold(107);
    lemma_pow2_unfold(108);
    lemma_pow2_unfold(109);
    lemma_pow2_unfold(110);
    lemma_pow2_unfold(111);
    lemma_pow2_unfold(112);
    lemma_pow2_unfold(113);
    lemma_pow2_unfold(114);
    lemma_pow2_unfold(115);
    lemma_pow2_unfold(116);
    lemma_pow2_unfold(117);
    lemma_pow2_unfold(118);
    lemma_pow2_unfold(119);
    lemma_pow2_unfold(120);
    lemma_pow2_unfold(121);
    lemma_pow2_unfold(122);
    lemma_pow2_unfold(123);
    lemma_pow2_unfold(124);
    lemma_pow2_unfold(125);
    lemma_pow2_unfold(126);
    lemma_pow2_unfold(127);
    lemma_pow2_unfold(128);
}

/// A nonzero 32-bit value with `z` leading zeros lies in `2^(31 - z) .. 2^(32 - z)`.
pub proof fn lemma_leading_zeros_u32(v: u32)
    ensures
        u32_leading_zeros(v) <= 32,
        v == 0 <==> u32_leading_zeros(v) == 32,
        v != 0 ==> pow2((31 - u32_leading_zeros(v)) as nat) <= v < pow2(
            (32 - u32_leading_zeros(v)) as nat,
        ),
{
    axiom_u32_leading_zeros(v);
    lemma2_to64();
    if v != 0 {
        let z = u32_leading_zeros(v);
        let s: u32 = (31 - z) as u32;
        let t: u32 = (32 - z) as u32;
        let top = v >> s;
        assert(top != 0) by (bit_vector)
            requires
                top & 1u32 != 0u32,
        ;
        lemma_u32_shr_is_div(v, s);
        let lo = pow2(s as nat) as int;
        let n = v as int;
        assert(lo > 0) by {
            lemma_pow2_pos(s as nat);
        }
        assert(lo <= n) by (nonlinear_arith)
            requires
                lo > 0,
                n / lo >= 1,
        ;
        if t < 32 {
            lemma_u32_shr_is_div(v, t);
            let hi = pow2(t as nat) as int;
            assert(hi > 0) by {
                lemma_pow2_pos(t as nat);
            }
            assert(n < hi) by (nonlinear_arith)
                requires
                    hi > 0,
                    n >= 0,
                    n / hi == 0,
            ;
        }
    }
}

/// A nonzero 64-bit value with `z` leading zeros lies in `2^(63 - z) .. 2^(64 - z)`.
pub proof fn lemma_leading_zeros_u64(v: u64)
    ensures
        0 <= u64_leading_zeros(v) <= 64,
        v == 0 <==> u64_leading_zeros(v) == 64,
        v != 0 ==> pow2((63 - u64_leading_zeros(v)) as nat) <= v < pow2(
            (64 - u64_leading_zeros(v)) as nat,
        ),
    decreases v,
{
    reveal(u64_leading_zeros);
    lemma2_to64();
    if v != 0 {
        let h = v / 2;
        lemma_leading_zeros_u64(h);
        if h != 0 {
            let z = u64_leading_zeros(h);
            lemma_pow2_unfold((64 - z) as nat);
            lemma_pow2_unfold((65 - z) as nat);
        }
    }
}

/// A nonzero 128-bit value with `z` leading zeros lies in `2^(127 - z) .. 2^(128 - z)`.
pub proof fn lemma_leading_zeros_u128(v: u128)
    ensures
        u128_leading_zeros(v) <= 128,
        v == 0 <==> u128_leading_zeros(v) == 128,
        v != 0 ==> pow2((127 - u128_leading_zeros(v)) as nat) <= v < pow2(
            (128 - u128_leading_zeros(v)) as nat,
        ),
    decreases v,
{
    lemma2_to64();
    lemma_pow2_values_above_64();
    if v != 0 {
        let h = v / 2;
        lemma_leading_zeros_u128(h);
        if h != 0 {
            let z = u128_leading_zeros(h);
            lemma_pow2_unfold((128 - z) as nat);
            lemma_pow2_unfold((129 - z) as nat);
        }
    }
}

} // verus!
