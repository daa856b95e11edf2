//! Powers of ten on the unsigned primitive integers: whether a value is one,
//! how many decimal digits it has, and the least power of ten above it. Every
//! answer is a lookup in a small constant table, indexed by a hash of the
//! value or by its count of leading zero bits.
use crate::bits::{
    lemma_leading_zeros_u128, lemma_leading_zeros_u32, lemma_leading_zeros_u64,
    lemma_pow2_values_above_64, u128_leading_zeros,
};
use crate::decimal::{
    floor_log10, is_pow10, lemma_floor_log10_by_decade, lemma_is_pow10_by_value,
    lemma_next_pow10_by_decade, lemma_next_pow10_is_least, lemma_next_pow10_positive,
    next_pow10,
};
use crate::model::Integral;
use vstd::arithmetic::power2::{lemma2_to64, lemma2_to64_rest};
use vstd::prelude::*;
use vstd::std_specs::bits::{u32_leading_zeros, u64_leading_zeros};

verus! {

/// The least power of ten not below `v` if the type holds it, else 0. No
/// power of ten is 0, so the 0 can only mean that none fits.
pub open spec fn wrapping_next_pow10<T: Integral>(v: int) -> int {
    if T::in_range(next_pow10(v)) {
        next_pow10(v)
    } else {
        0
    }
}

/// Provides methods to compute functions related to powers of 10.
pub trait Power10: Integral {
    /// Returns `true` if the number is a power of 10.
    fn is_power_of_ten(&self) -> (r: bool)
        ensures
            r == is_pow10(self.int_value()),
    ;

    /// Returns the base 10 logarithm value, truncated down. The logarithm of
    /// zero is undefined: the caller must rule zero out. The implementations
    /// for the primitive types panic on a zero that reaches them unchecked.
    fn log10(&self) -> (r: u32)
        requires
            self.int_value() != 0,
        ensures
            r == floor_log10(self.int_value()),
    ;

    /// Returns the base 10 logarithm value, truncated down, or `None` for zero.
    fn checked_log10(&self) -> (r: Option<u32>)
        ensures
            match r {
                Some(d) => self.int_value() != 0 && d == floor_log10(self.int_value()),
                None => self.int_value() == 0,
            },
    ;

    /// Returns the least power of ten greater than or equal to the supplied
    /// value, or 0 if that power is larger than the type can hold.
    fn wrapping_next_power_of_ten(&self) -> (r: Self)
        ensures
            r.int_value() == wrapping_next_pow10::<Self>(self.int_value()),
    ;

    /// Returns the least power of ten greater than or equal to the supplied
    /// value, or `None` if that power is larger than the type can hold.
    fn checked_next_power_of_ten(&self) -> (r: Option<Self>)
        ensures
            match r {
                Some(p) => Self::in_range(next_pow10(self.int_value())) && p.int_value()
                    == next_pow10(self.int_value()),
                None => !Self::in_range(next_pow10(self.int_value())),
            },
    ;

    /// Returns the least power of ten greater than or equal to the supplied
    /// value. The caller must know that the type can hold it; where that is
    /// not known, `checked_next_power_of_ten` gives `None` and
    /// `wrapping_next_power_of_ten` gives 0 instead. The implementations for
    /// the primitive types panic on a value that reaches them unchecked and
    /// has no such power, in every build profile.
    fn next_power_of_ten(&self) -> (r: Self)
        requires
            Self::in_range(next_pow10(self.int_value())),
        ensures
            r.int_value() == next_pow10(self.int_value()),
    ;
}

/// Returns `true` if the number is a power of 10.
#[inline]
pub fn is_power_of_ten<T: Power10>(x: T) -> (r: bool)
    ensures
        r == is_pow10(x.int_value()),
{
    x.is_power_of_ten()
}

/// Returns the base 10 logarithm value, truncated down, of a value that is
/// not zero.
#[inline]
pub fn log10<T: Power10>(x: T) -> (r: u32)
    requires
        x.int_value() != 0,
    ensures
        r == floor_log10(x.int_value()),
{
    x.log10()
}

/// Returns the base 10 logarithm value, truncated down, or `None` for zero.
#[inline]
pub fn checked_log10<T: Power10>(x: T) -> (r: Option<u32>)
    ensures
        match r {
            Some(d) => x.int_value() != 0 && d == floor_log10(x.int_value()),
            None => x.int_value() == 0,
        },
{
    x.checked_log10()
}

/// Returns the least power of ten greater than or equal to the supplied
/// value, or 0 if that power is larger than the type can hold.
#[inline]
pub fn wrapping_next_power_of_ten<T: Power10>(x: T) -> (r: T)
    ensures
        r.int_value() == wrapping_next_pow10::<T>(x.int_value()),
{
    x.wrapping_next_power_of_ten()
}

/// Returns the least power of ten greater than or equal to the supplied
/// value, or `None` if that power is larger than the type can hold.
#[inline]
pub fn checked_next_power_of_ten<T: Power10>(x: T) -> (r: Option<T>)
    ensures
        match r {
            Some(p) => T::in_range(next_pow10(x.int_value())) && p.int_value() == next_pow10(
                x.int_value(),
            ),
            None => !T::in_range(next_pow10(x.int_value())),
        },
{
    x.checked_next_power_of_ten()
}

/// Returns the least power of ten greater than or equal to the supplied
/// value, which the type must be able to hold.
#[inline]
pub fn next_power_of_ten<T: Power10>(x: T) -> (r: T)
    requires
        T::in_range(next_pow10(x.int_value())),
    ensures
        r.int_value() == next_pow10(x.int_value()),
{
    x.next_power_of_ten()
}

/// What the wrapping form returns for a value `x` is 0 or a power of ten that
/// is not below `x`; a power of ten at that is the least such; and 0 comes
/// only where the type holds no power of ten that is not below `x`.
pub proof fn lemma_wrapping_next_pow10_is_least<T: Integral>(x: T, p: int)
    requires
        is_pow10(p),
        x.int_value() <= p,
    ensures
        wrapping_next_pow10::<T>(x.int_value()) == 0 || (is_pow10(
            wrapping_next_pow10::<T>(x.int_value()),
        ) && x.int_value() <= wrapping_next_pow10::<T>(x.int_value()) <= p),
        T::in_range(p) ==> wrapping_next_pow10::<T>(x.int_value()) != 0,
{
    let v = x.int_value();
    lemma_next_pow10_is_least(v, p);
    lemma_next_pow10_positive(v);
    if T::in_range(p) {
        x.lemma_value_in_range();
        T::lemma_range_is_interval(v, next_pow10(v), p);
    }
}

/// The largest value of each unsigned primitive type lies above every power
/// of ten that the type holds: its next power of ten does not fit.
pub proof fn lemma_no_next_pow10_at_max()
    ensures
        wrapping_next_pow10::<u8>(u8::MAX as int) == 0,
        wrapping_next_pow10::<u16>(u16::MAX as int) == 0,
        wrapping_next_pow10::<u32>(u32::MAX as int) == 0,
        wrapping_next_pow10::<u64>(u64::MAX as int) == 0,
        wrapping_next_pow10::<u128>(u128::MAX as int) == 0,
        wrapping_next_pow10::<usize>(usize::MAX as int) == 0,
{
    lemma_next_pow10_by_decade(u8::MAX as int);
    lemma_next_pow10_by_decade(u16::MAX as int);
    lemma_next_pow10_by_decade(u32::MAX as int);
    lemma_next_pow10_by_decade(u64::MAX as int);
    lemma_next_pow10_by_decade(u128::MAX as int);
    lemma_next_pow10_by_decade(usize::MAX as int);
}

/// Zero is no power of ten, and the least power of ten above it is 1, which
/// every unsigned primitive type holds.
pub proof fn lemma_pow10_at_zero()
    ensures
        !is_pow10(0),
        next_pow10(0) == 1,
        wrapping_next_pow10::<u8>(0) == 1,
        wrapping_next_pow10::<u16>(0) == 1,
        wrapping_next_pow10::<u32>(0) == 1,
        wrapping_next_pow10::<u64>(0) == 1,
        wrapping_next_pow10::<u128>(0) == 1,
        wrapping_next_pow10::<usize>(0) == 1,
{
    lemma_is_pow10_by_value(0);
    lemma_next_pow10_by_decade(0);
}

// The membership test for 16 and 32 bits is a perfect hash with a very cheap
// hash function, computed in 32-bit operations: every power of ten lands in a
// slot of its own, and 0, which is no power of ten, marks the empty slots.
const POWER10_HASH_U16: [u32; 8] = [1, 10, 10_000, 0, 100, 1_000, 0, 0];

const POWER10_HASH_U32: [u32; 16] = [
    10_000,
    1,
    10_000_000,
    0,
    100,
    0,
    100_000,
    100_000_000,
    1_000,
    0,
    10,
    1_000_000_000,
    0,
    1_000_000,
    0,
    0,
];

/// Marks a slot of a table indexed by leading zeros that holds no power of
/// ten. The all-ones value has no leading zero, and stands in no slot 0.
const EMPTY_U64: u64 = 0xffff_ffff_ffff_ffff;

const EMPTY_U128: u128 = 0xffff_ffff_ffff_ffff_ffff_ffff_ffff_ffff;

// For 64 and 128 bits the index is the count of leading zero bits: no two
// powers of ten of these widths share one. Slot 0 also serves the value 0,
// whose count is the width and is masked to 0.
const POWER10_LZ_U64: [u64; 65] = [
    10_000_000_000_000_000_000,
    EMPTY_U64,
    EMPTY_U64,
    EMPTY_U64,
    1_000_000_000_000_000_000,
    EMPTY_U64,
    EMPTY_U64,
    100_000_000_000_000_000,
    EMPTY_U64,
    EMPTY_U64,
    10_000_000_000_000_000,
    EMPTY_U64,
    EMPTY_U64,
    EMPTY_U64,
    1_000_000_000_000_000,
    EMPTY_U64,
    EMPTY_U64,
    100_000_000_000_000,
    EMPTY_U64,
    EMPTY_U64,
    10_000_000_000_000,
    EMPTY_U64,
    EMPTY_U64,
    EMPTY_U64,
    1_000_000_000_000,
    EMPTY_U64,
    EMPTY_U64,
    100_000_000_000,
    EMPTY_U64,
    EMPTY_U64,
    10_000_000_000,
    EMPTY_U64,
    EMPTY_U64,
    EMPTY_U64,
    1_000_000_000,
    EMPTY_U64,
    EMPTY_U64,
    100_000_000,
    EMPTY_U64,
    EMPTY_U64,
    10_000_000,
    EMPTY_U64,
    EMPTY_U64,
    EMPTY_U64,
    1_000_000,
    EMPTY_U64,
    EMPTY_U64,
    100_000,
    EMPTY_U64,
    EMPTY_U64,
    10_000,
    EMPTY_U64,
    EMPTY_U64,
    EMPTY_U64,
    1_000,
    EMPTY_U64,
    EMPTY_U64,
    100,
    EMPTY_U64,
    EMPTY_U64,
    10,
    EMPTY_U64,
    EMPTY_U64,
    1,
    1,
];

// No 128-bit power of ten is without a leading zero, so slot 0 is empty. It
// serves 0 and the values without a leading zero, and none of them is 1.
const POWER10_LZ_U128: [u128; 129] = [
    1,
    100_000_000_000_000_000_000_000_000_000_000_000_000,
    EMPTY_U128,
    EMPTY_U128,
    EMPTY_U128,
    10_000_000_000_000_000_000_000_000_000_000_000_000,
    EMPTY_U128,
    EMPTY_U128,
    1_000_000_000_000_000_000_000_000_000_000_000_000,
    EMPTY_U128,
    EMPTY_U128,
    100_000_000_000_000_000_000_000_000_000_000_000,
    EMPTY_U128,
    EMPTY_U128,
    EMPTY_U128,
    10_000_000_000_000_000_000_000_000_000_000_000,
    EMPTY_U128,
    EMPTY_U128,
    1_000_000_000_000_000_000_000_000_000_000_000,
    EMPTY_U128,
    EMPTY_U128,
    100_000_000_000_000_000_000_000_000_000_000,
    EMPTY_U128,
    EMPTY_U128,
    EMPTY_U128,
    10_000_000_000_000_000_000_000_000_000_000,
    EMPTY_U128,
    EMPTY_U128,
    1_000_000_000_000_000_000_000_000_000_000,
    EMPTY_U128,
    EMPTY_U128,
    100_000_000_000_000_000_000_000_000_000,
    EMPTY_U128,
    EMPTY_U128,
    10_000_000_000_000_000_000_000_000_000,
    EMPTY_U128,
    EMPTY_U128,
    EMPTY_U128,
    1_000_000_000_000_000_000_000_000_000,
    EMPTY_U128,
    EMPTY_U128,
    100_000_000_000_000_000_000_000_000,
    EMPTY_U128,
    EMPTY_U128,
    10_000_000_000_000_000_000_000_000,
    EMPTY_U128,
    EMPTY_U128,
    EMPTY_U128,
    1_000_000_000_000_000_000_000_000,
    EMPTY_U128,
    EMPTY_U128,
    100_000_000_000_000_000_000_000,
    EMPTY_U128,
    EMPTY_U128,
    10_000_000_000_000_000_000_000,
    EMPTY_U128,
    EMPTY_U128,
    EMPTY_U128,
    1_000_000_000_000_000_000_000,
    EMPTY_U128,
    EMPTY_U128,
    100_000_000_000_000_000_000,
    EMPTY_U128,
    EMPTY_U128,
    10_000_000_000_000_000_000,
    EMPTY_U128,
    EMPTY_U128,
    EMPTY_U128,
    1_000_000_000_000_000_000,
    EMPTY_U128,
    EMPTY_U128,
    100_000_000_000_000_000,
    EMPTY_U128,
    EMPTY_U128,
    10_000_000_000_000_000,
    EMPTY_U128,
    EMPTY_U128,
    EMPTY_U128,
    1_000_000_000_000_000,
    EMPTY_U128,
    EMPTY_U128,
    100_000_000_000_000,
    EMPTY_U128,
    EMPTY_U128,
    10_000_000_000_000,
    EMPTY_U128,
    EMPTY_U128,
    EMPTY_U128,
    1_000_000_000_000,
    EMPTY_U128,
    EMPTY_U128,
    100_000_000_000,
    EMPTY_U128,
    EMPTY_U128,
    10_000_000_000,
    EMPTY_U128,
    EMPTY_U128,
    EMPTY_U128,
    1_000_000_000,
    EMPTY_U128,
    EMPTY_U128,
    100_000_000,
    EMPTY_U128,
    EMPTY_U128,
    10_000_000,
    EMPTY_U128,
    EMPTY_U128,
    EMPTY_U128,
    1_000_000,
    EMPTY_U128,
    EMPTY_U128,
    100_000,
    EMPTY_U128,
    EMPTY_U128,
    10_000,
    EMPTY_U128,
    EMPTY_U128,
    EMPTY_U128,
    1_000,
    EMPTY_U128,
    EMPTY_U128,
    100,
    EMPTY_U128,
    EMPTY_U128,
    10,
    EMPTY_U128,
    EMPTY_U128,
    1,
    1,
];

// Reverse search is a bit faster than a hash lookup for 8 bits.
#[inline]
fn is_pow10_u8(v: u8) -> (r: bool)
    ensures
        r == is_pow10(v as int),
{
    proof {
        lemma_is_pow10_by_value(v as int);
    }
    if v >= 100 {
        return v == 100;
    }
    if v >= 10 {
        return v == 10;
    }
    v == 1
}

/// The slot of the 16-bit table in which `v` is looked up.
spec fn slot_u16(v: u16) -> u32 {
    (v as u32 >> 3) & 7
}

/// The 16-bit hash is perfect: the slot of `v` holds `v` exactly when `v` is
/// a power of ten.
proof fn lemma_hash_table_u16(v: u16)
    ensures
        slot_u16(v) < 8,
        POWER10_HASH_U16[slot_u16(v) as int] == v <==> is_pow10(v as int),
{
    let idx = slot_u16(v);
    assert({
        &&& idx < 8
        &&& (v == 0 ==> idx == 0)
        &&& (v == 1 ==> idx == 0)
        &&& (v == 10 ==> idx == 1)
        &&& (v == 100 ==> idx == 4)
        &&& (v == 1_000 ==> idx == 5)
        &&& (v == 10_000 ==> idx == 2)
    }) by (bit_vector)
        requires
            idx == (v as u32 >> 3) & 7,
    ;
    lemma_is_pow10_by_value(v as int);
}

// At least on x86-64, 32-bit operations are far faster than 16-bit ones,
// even the comparison.
#[inline]
fn is_pow10_u16(v: u16) -> (r: bool)
    ensures
        r == is_pow10(v as int),
{
    proof {
        lemma_hash_table_u16(v);
    }
    v as u32 == POWER10_HASH_U16[((v as u32 >> 3) & 7) as usize]
}

/// The slot of the 32-bit table in which `v` is looked up.
spec fn slot_u32(v: u32) -> u32 {
    (v ^ (v >> 14)) & 15
}

/// The 32-bit hash is perfect: the slot of `v` holds `v` exactly when `v` is
/// a power of ten.
proof fn lemma_hash_table_u32(v: u32)
    ensures
        slot_u32(v) < 16,
        POWER10_HASH_U32[slot_u32(v) as int] == v <==> is_pow10(v as int),
{
    let idx = slot_u32(v);
    assert({
        &&& idx < 16
        &&& (v == 0 ==> idx == 0)
        &&& (v == 1 ==> idx == 1)
        &&& (v == 10 ==> idx == 10)
        &&& (v == 100 ==> idx == 4)
        &&& (v == 1_000 ==> idx == 8)
        &&& (v == 10_000 ==> idx == 0)
        &&& (v == 100_000 ==> idx == 6)
        &&& (v == 1_000_000 ==> idx == 13)
        &&& (v == 10_000_000 ==> idx == 2)
        &&& (v == 100_000_000 ==> idx == 7)
        &&& (v == 1_000_000_000 ==> idx == 11)
    }) by (bit_vector)
        requires
            idx == (v ^ (v >> 14)) & 15,
    ;
    lemma_is_pow10_by_value(v as int);
}

#[inline]
fn is_pow10_u32(v: u32) -> (r: bool)
    ensures
        r == is_pow10(v as int),
{
    proof {
        lemma_hash_table_u32(v);
    }
    let hash: u32 = v ^ (v >> 14);
    v == POWER10_HASH_U32[(hash & 15) as usize]
}

/// The slot of the 64-bit table in which `v` is looked up.
spec fn slot_u64(v: u64) -> u32 {
    (u64_leading_zeros(v) as u32) & 63
}

/// In the 64-bit table the slot of `v` holds `v` exactly when `v` is a power
/// of ten: each slot holds the one power of ten with that count of leading
/// zeros, or a value that is looked up elsewhere.
proof fn lemma_lz_table_u64(v: u64)
    ensures
        slot_u64(v) < 64,
        POWER10_LZ_U64[slot_u64(v) as int] == v <==> is_pow10(v as int),
{
    lemma_leading_zeros_u64(v);
    let lz = u64_leading_zeros(v) as u32;
    let idx = slot_u64(v);
    assert(idx == if lz == 64 { 0 } else { lz }) by (bit_vector)
        requires
            lz <= 64,
            idx == lz & 63,
    ;
    lemma2_to64();
    lemma2_to64_rest();
    lemma_is_pow10_by_value(v as int);
}

#[inline]
fn is_pow10_u64(v: u64) -> (r: bool)
    ensures
        r == is_pow10(v as int),
{
    proof {
        lemma_lz_table_u64(v);
    }
    // the mask may look redundant, but it keeps the index inside the table
    // without a range check
    v == POWER10_LZ_U64[(v.leading_zeros() & 63) as usize]
}

/// The slot of the 128-bit table in which `v` is looked up.
spec fn slot_u128(v: u128) -> u32 {
    u128_leading_zeros(v) & 127
}

/// In the 128-bit table the slot of `v` holds `v` exactly when `v` is a
/// power of ten.
proof fn lemma_lz_table_u128(v: u128)
    ensures
        slot_u128(v) < 128,
        POWER10_LZ_U128[slot_u128(v) as int] == v <==> is_pow10(v as int),
{
    lemma_leading_zeros_u128(v);
    let lz = u128_leading_zeros(v);
    let idx = slot_u128(v);
    assert(idx == if lz == 128 { 0 } else { lz }) by (bit_vector)
        requires
            lz <= 128,
            idx == lz & 127,
    ;
    lemma2_to64();
    lemma2_to64_rest();
    lemma_pow2_values_above_64();
    lemma_is_pow10_by_value(v as int);
}

#[inline]
fn is_pow10_u128(v: u128) -> (r: bool)
    ensures
        r == is_pow10(v as int),
{
    proof {
        lemma_lz_table_u128(v);
    }
    v == POWER10_LZ_U128[(v.leading_zeros() & 127) as usize]
}

#[inline]
fn is_pow10_usize(v: usize) -> (r: bool)
    ensures
        r == is_pow10(v as int),
{
    if usize::BITS == 32 {
        is_pow10_u32(v as u32)
    } else {
        is_pow10_u64(v as u64)
    }
}

// For each count of leading zero bits: the logarithm of the values that
// have it and lie below the power of ten beside it; those at or above that
// power have one digit more. The last two entries serve 1 and 0 where the
// next power of ten looks one count further.
const POWER10_DIGITS_U32: [(u32, u32); 34] = [
    (8, 1_000_000_000),
    (8, 1_000_000_000),
    (8, 1_000_000_000),
    (8, 1_000_000_000),
    (8, 1_000_000_000),
    (7, 100_000_000),
    (7, 100_000_000),
    (7, 100_000_000),
    (6, 10_000_000),
    (6, 10_000_000),
    (6, 10_000_000),
    (6, 10_000_000),
    (5, 1_000_000),
    (5, 1_000_000),
    (5, 1_000_000),
    (4, 100_000),
    (4, 100_000),
    (4, 100_000),
    (3, 10_000),
    (3, 10_000),
    (3, 10_000),
    (3, 10_000),
    (2, 1_000),
    (2, 1_000),
    (2, 1_000),
    (1, 100),
    (1, 100),
    (1, 100),
    (0, 10),
    (0, 10),
    (0, 10),
    (0, 10),
    (0, 1),
    (0, 1),
];

const POWER10_DIGITS_U64: [(u32, u64); 66] = [
    (18, 10_000_000_000_000_000_000),
    (18, 10_000_000_000_000_000_000),
    (18, 10_000_000_000_000_000_000),
    (18, 10_000_000_000_000_000_000),
    (17, 1_000_000_000_000_000_000),
    (17, 1_000_000_000_000_000_000),
    (17, 1_000_000_000_000_000_000),
    (16, 100_000_000_000_000_000),
    (16, 100_000_000_000_000_000),
    (16, 100_000_000_000_000_000),
    (15, 10_000_000_000_000_000),
    (15, 10_000_000_000_000_000),
    (15, 10_000_000_000_000_000),
    (15, 10_000_000_000_000_000),
    (14, 1_000_000_000_000_000),
    (14, 1_000_000_000_000_000),
    (14, 1_000_000_000_000_000),
    (13, 100_000_000_000_000),
    (13, 100_000_000_000_000),
    (13, 100_000_000_000_000),
    (12, 10_000_000_000_000),
    (12, 10_000_000_000_000),
    (12, 10_000_000_000_000),
    (12, 10_000_000_000_000),
    (11, 1_000_000_000_000),
    (11, 1_000_000_000_000),
    (11, 1_000_000_000_000),
    (10, 100_000_000_000),
    (10, 100_000_000_000),
    (10, 100_000_000_000),
    (9, 10_000_000_000),
    (9, 10_000_000_000),
    (9, 10_000_000_000),
    (9, 10_000_000_000),
    (8, 1_000_000_000),
    (8, 1_000_000_000),
    (8, 1_000_000_000),
    (7, 100_000_000),
    (7, 100_000_000),
    (7, 100_000_000),
    (6, 10_000_000),
    (6, 10_000_000),
    (6, 10_000_000),
    (6, 10_000_000),
    (5, 1_000_000),
    (5, 1_000_000),
    (5, 1_000_000),
    (4, 100_000),
    (4, 100_000),
    (4, 100_000),
    (3, 10_000),
    (3, 10_000),
    (3, 10_000),
    (3, 10_000),
    (2, 1_000),
    (2, 1_000),
    (2, 1_000),
    (1, 100),
    (1, 100),
    (1, 100),
    (0, 10),
    (0, 10),
    (0, 10),
    (0, 10),
    (0, 1),
    (0, 1),
];

const POWER10_DIGITS_U128: [(u32, u128); 130] = [
    (37, 100_000_000_000_000_000_000_000_000_000_000_000_000),
    (37, 100_000_000_000_000_000_000_000_000_000_000_000_000),
    (37, 100_000_000_000_000_000_000_000_000_000_000_000_000),
    (37, 100_000_000_000_000_000_000_000_000_000_000_000_000),
    (37, 100_000_000_000_000_000_000_000_000_000_000_000_000),
    (36, 10_000_000_000_000_000_000_000_000_000_000_000_000),
    (36, 10_000_000_000_000_000_000_000_000_000_000_000_000),
    (36, 10_000_000_000_000_000_000_000_000_000_000_000_000),
    (35, 1_000_000_000_000_000_000_000_000_000_000_000_000),
    (35, 1_000_000_000_000_000_000_000_000_000_000_000_000),
    (35, 1_000_000_000_000_000_000_000_000_000_000_000_000),
    (34, 100_000_000_000_000_000_000_000_000_000_000_000),
    (34, 100_000_000_000_000_000_000_000_000_000_000_000),
    (34, 100_000_000_000_000_000_000_000_000_000_000_000),
    (34, 100_000_000_000_000_000_000_000_000_000_000_000),
    (33, 10_000_000_000_000_000_000_000_000_000_000_000),
    (33, 10_000_000_000_000_000_000_000_000_000_000_000),
    (33, 10_000_000_000_000_000_000_000_000_000_000_000),
    (32, 1_000_000_000_000_000_000_000_000_000_000_000),
    (32, 1_000_000_000_000_000_000_000_000_000_000_000),
    (32, 1_000_000_000_000_000_000_000_000_000_000_000),
    (31, 100_000_000_000_000_000_000_000_000_000_000),
    (31, 100_000_000_000_000_000_000_000_000_000_000),
    (31, 100_000_000_000_000_000_000_000_000_000_000),
    (31, 100_000_000_000_000_000_000_000_000_000_000),
    (30, 10_000_000_000_000_000_000_000_000_000_000),
    (30, 10_000_000_000_000_000_000_000_000_000_000),
    (30, 10_000_000_000_000_000_000_000_000_000_000),
    (29, 1_000_000_000_000_000_000_000_000_000_000),
    (29, 1_000_000_000_000_000_000_000_000_000_000),
    (29, 1_000_000_000_000_000_000_000_000_000_000),
    (28, 100_000_000_000_000_000_000_000_000_000),
    (28, 100_000_000_000_000_000_000_000_000_000),
    (28, 100_000_000_000_000_000_000_000_000_000),
    (27, 10_000_000_000_000_000_000_000_000_000),
    (27, 10_000_000_000_000_000_000_000_000_000),
    (27, 10_000_000_000_000_000_000_000_000_000),
    (27, 10_000_000_000_000_000_000_000_000_000),
    (26, 1_000_000_000_000_000_000_000_000_000),
    (26, 1_000_000_000_000_000_000_000_000_000),
    (26, 1_000_000_000_000_000_000_000_000_000),
    (25, 100_000_000_000_000_000_000_000_000),
    (25, 100_000_000_000_000_000_000_000_000),
    (25, 100_000_000_000_000_000_000_000_000),
    (24, 10_000_000_000_000_000_000_000_000),
    (24, 10_000_000_000_000_000_000_000_000),
    (24, 10_000_000_000_000_000_000_000_000),
    (24, 10_000_000_000_000_000_000_000_000),
    (23, 1_000_000_000_000_000_000_000_000),
    (23, 1_000_000_000_000_000_000_000_000),
    (23, 1_000_000_000_000_000_000_000_000),
    (22, 100_000_000_000_000_000_000_000),
    (22, 100_000_000_000_000_000_000_000),
    (22, 100_000_000_000_000_000_000_000),
    (21, 10_000_000_000_000_000_000_000),
    (21, 10_000_000_000_000_000_000_000),
    (21, 10_000_000_000_000_000_000_000),
    (21, 10_000_000_000_000_000_000_000),
    (20, 1_000_000_000_000_000_000_000),
    (20, 1_000_000_000_000_000_000_000),
    (20, 1_000_000_000_000_000_000_000),
    (19, 100_000_000_000_000_000_000),
    (19, 100_000_000_000_000_000_000),
    (19, 100_000_000_000_000_000_000),
    (18, 10_000_000_000_000_000_000),
    (18, 10_000_000_000_000_000_000),
    (18, 10_000_000_000_000_000_000),
    (18, 10_000_000_000_000_000_000),
    (17, 1_000_000_000_000_000_000),
    (17, 1_000_000_000_000_000_000),
    (17, 1_000_000_000_000_000_000),
    (16, 100_000_000_000_000_000),
    (16, 100_000_000_000_000_000),
    (16, 100_000_000_000_000_000),
    (15, 10_000_000_000_000_000),
    (15, 10_000_000_000_000_000),
    (15, 10_000_000_000_000_000),
    (15, 10_000_000_000_000_000),
    (14, 1_000_000_000_000_000),
    (14, 1_000_000_000_000_000),
    (14, 1_000_000_000_000_000),
    (13, 100_000_000_000_000),
    (13, 100_000_000_000_000),
    (13, 100_000_000_000_000),
    (12, 10_000_000_000_000),
    (12, 10_000_000_000_000),
    (12, 10_000_000_000_000),
    (12, 10_000_000_000_000),
    (11, 1_000_000_000_000),
    (11, 1_000_000_000_000),
    (11, 1_000_000_000_000),
    (10, 100_000_000_000),
    (10, 100_000_000_000),
    (10, 100_000_000_000),
    (9, 10_000_000_000),
    (9, 10_000_000_000),
    (9, 10_000_000_000),
    (9, 10_000_000_000),
    (8, 1_000_000_000),
    (8, 1_000_000_000),
    (8, 1_000_000_000),
    (7, 100_000_000),
    (7, 100_000_000),
    (7, 100_000_000),
    (6, 10_000_000),
    (6, 10_000_000),
    (6, 10_000_000),
    (6, 10_000_000),
    (5, 1_000_000),
    (5, 1_000_000),
    (5, 1_000_000),
    (4, 100_000),
    (4, 100_000),
    (4, 100_000),
    (3, 10_000),
    (3, 10_000),
    (3, 10_000),
    (3, 10_000),
    (2, 1_000),
    (2, 1_000),
    (2, 1_000),
    (1, 100),
    (1, 100),
    (1, 100),
    (0, 10),
    (0, 10),
    (0, 10),
    (0, 10),
    (0, 1),
    (0, 1),
];

#[inline]
fn log10_u8(v: u8) -> (r: u32)
    ensures
        r == floor_log10(v as int),
{
    proof {
        lemma_floor_log10_by_decade(v as int);
    }
    if v >= 100 {
        return 2;
    }
    if v >= 10 {
        return 1;
    }
    0
}

#[inline]
fn log10_u16(v: u16) -> (r: u32)
    ensures
        r == floor_log10(v as int),
{
    log10_u32(v as u32)
}

/// The 32-bit digit table resolves what the count of leading zeros leaves
/// open: the entry for the count of `v` holds the logarithm of `v` if `v` is
/// below the power of ten beside it, and one less than the logarithm if not.
proof fn lemma_digits_table_u32(v: u32)
    ensures
        0 <= u32_leading_zeros(v) <= 32,
        floor_log10(v as int) == POWER10_DIGITS_U32[u32_leading_zeros(v) as int].0 + if v
            >= POWER10_DIGITS_U32[u32_leading_zeros(v) as int].1 {
            1nat
        } else {
            0nat
        },
{
    lemma_leading_zeros_u32(v);
    lemma2_to64();
    lemma_floor_log10_by_decade(v as int);
}

#[inline]
fn log10_u32(v: u32) -> (r: u32)
    ensures
        r == floor_log10(v as int),
{
    proof {
        lemma_digits_table_u32(v);
    }
    let lz: u32 = v.leading_zeros();
    let (digits, pow10) = POWER10_DIGITS_U32[lz as usize];
    digits + ((v >= pow10) as u32)
}

/// The 64-bit digit table resolves what the count of leading zeros leaves
/// open: the entry for the count of `v` holds the logarithm of `v` if `v` is
/// below the power of ten beside it, and one less than the logarithm if not.
proof fn lemma_digits_table_u64(v: u64)
    ensures
        0 <= u64_leading_zeros(v) <= 64,
        floor_log10(v as int) == POWER10_DIGITS_U64[u64_leading_zeros(v) as int].0 + if v
            >= POWER10_DIGITS_U64[u64_leading_zeros(v) as int].1 {
            1nat
        } else {
            0nat
        },
{
    lemma_leading_zeros_u64(v);
    lemma2_to64();
    lemma2_to64_rest();
    lemma_floor_log10_by_decade(v as int);
}

#[inline]
fn log10_u64(v: u64) -> (r: u32)
    ensures
        r == floor_log10(v as int),
{
    proof {
        lemma_digits_table_u64(v);
    }
    let lz: u32 = v.leading_zeros();
    let (digits, pow10) = POWER10_DIGITS_U64[lz as usize];
    digits + ((v >= pow10) as u32)
}

/// The 128-bit digit table resolves what the count of leading zeros leaves
/// open: the entry for the count of `v` holds the logarithm of `v` if `v` is
/// below the power of ten beside it, and one less than the logarithm if not.
proof fn lemma_digits_table_u128(v: u128)
    ensures
        0 <= u128_leading_zeros(v) <= 128,
        floor_log10(v as int) == POWER10_DIGITS_U128[u128_leading_zeros(v) as int].0 + if v
            >= POWER10_DIGITS_U128[u128_leading_zeros(v) as int].1 {
            1nat
        } else {
            0nat
        },
{
    lemma_leading_zeros_u128(v);
    lemma2_to64();
    lemma2_to64_rest();
    lemma_pow2_values_above_64();
    lemma_floor_log10_by_decade(v as int);
}

#[inline]
fn log10_u128(v: u128) -> (r: u32)
    ensures
        r == floor_log10(v as int),
{
    proof {
        lemma_digits_table_u128(v);
    }
    let lz: u32 = v.leading_zeros();
    let (digits, pow10) = POWER10_DIGITS_U128[lz as usize];
    digits + ((v >= pow10) as u32)
}

#[inline]
fn log10_usize(v: usize) -> (r: u32)
    ensures
        r == floor_log10(v as int),
{
    if usize::BITS == 32 {
        log10_u32(v as u32)
    } else {
        log10_u64(v as u64)
    }
}

#[inline]
fn wrapping_next_power_of_ten_u8(v: u8) -> (r: u8)
    ensures
        r == wrapping_next_pow10::<u8>(v as int),
{
    proof {
        lemma_next_pow10_by_decade(v as int);
    }
    if v > 100 {
        return 0;
    }
    if v > 10 {
        return 100;
    }
    if v > 1 {
        return 10;
    }
    1
}

#[inline]
fn wrapping_next_power_of_ten_u16(v: u16) -> (r: u16)
    ensures
        r == wrapping_next_pow10::<u16>(v as int),
{
    proof {
        lemma_next_pow10_by_decade(v as int);
    }
    if v > 10000 {
        return 0;
    }
    wrapping_next_power_of_ten_u32(v as u32) as u16
}

#[inline]
fn wrapping_next_power_of_ten_u32(v: u32) -> (r: u32)
    ensures
        r == wrapping_next_pow10::<u32>(v as int),
{
    proof {
        lemma_leading_zeros_u32(v);
        lemma2_to64();
        lemma_next_pow10_by_decade(v as int);
    }
    if v > POWER10_DIGITS_U32[0].1 {
        return 0;
    }
    let lz: u32 = v.leading_zeros();
    let (_, prev_pow10) = POWER10_DIGITS_U32[(lz + 1) as usize];
    if v == prev_pow10 {
        prev_pow10
    } else if v > prev_pow10 {
        POWER10_DIGITS_U32[(lz - 1) as usize].1
    } else {
        POWER10_DIGITS_U32[lz as usize].1
    }
}

#[inline]
fn wrapping_next_power_of_ten_u64(v: u64) -> (r: u64)
    ensures
        r == wrapping_next_pow10::<u64>(v as int),
{
    proof {
        lemma_leading_zeros_u64(v);
        lemma2_to64();
        lemma2_to64_rest();
        lemma_next_pow10_by_decade(v as int);
    }
    let lz: u32 = v.leading_zeros();
    if lz == 0 {
        let max: u64 = POWER10_DIGITS_U64[0].1;
        if v > max {
            return 0;
        }
        return max;
    }
    let (_, prev_pow10) = POWER10_DIGITS_U64[(lz + 1) as usize];
    if v == prev_pow10 {
        prev_pow10
    } else if v > prev_pow10 {
        POWER10_DIGITS_U64[(lz - 1) as usize].1
    } else {
        POWER10_DIGITS_U64[lz as usize].1
    }
}

#[inline]
fn wrapping_next_power_of_ten_u128(v: u128) -> (r: u128)
    ensures
        r == wrapping_next_pow10::<u128>(v as int),
{
    proof {
        lemma_leading_zeros_u128(v);
        lemma2_to64();
        lemma2_to64_rest();
        lemma_pow2_values_above_64();
        lemma_next_pow10_by_decade(v as int);
    }
    if v > POWER10_DIGITS_U128[0].1 {
        return 0;
    }
    let lz: u32 = v.leading_zeros();
    let (_, prev_pow10) = POWER10_DIGITS_U128[(lz + 1) as usize];
    if v == prev_pow10 {
        prev_pow10
    } else if v > prev_pow10 {
        POWER10_DIGITS_U128[(lz - 1) as usize].1
    } else {
        POWER10_DIGITS_U128[lz as usize].1
    }
}

#[inline]
fn wrapping_next_power_of_ten_usize(v: usize) -> (r: usize)
    ensures
        r == wrapping_next_pow10::<usize>(v as int),
{
    if usize::BITS == 32 {
        wrapping_next_power_of_ten_u32(v as u32) as usize
    } else {
        wrapping_next_power_of_ten_u64(v as u64) as usize
    }
}

impl Power10 for u8 {
    #[inline]
    fn is_power_of_ten(&self) -> (r: bool) {
        is_pow10_u8(*self)
    }

    #[inline]
    fn log10(&self) -> (r: u32) {
        self.checked_log10().expect("undefined value for log of zero")
    }

    #[inline]
    fn checked_log10(&self) -> (r: Option<u32>) {
        if 0 == *self {
            return None;
        }
        Some(log10_u8(*self))
    }

    #[inline]
    fn wrapping_next_power_of_ten(&self) -> (r: u8) {
        wrapping_next_power_of_ten_u8(*self)
    }

    #[inline]
    fn checked_next_power_of_ten(&self) -> (r: Option<u8>) {
        let x: u8 = self.wrapping_next_power_of_ten();
        proof {
            lemma_next_pow10_positive(*self as int);
        }
        if x == 0 {
            return None;
        }
        Some(x)
    }

    #[inline]
    fn next_power_of_ten(&self) -> (r: u8) {
        self.checked_next_power_of_ten().expect("overflow in next_power_of_ten")
    }
}

impl Power10 for u16 {
    #[inline]
    fn is_power_of_ten(&self) -> (r: bool) {
        is_pow10_u16(*self)
    }

    #[inline]
    fn log10(&self) -> (r: u32) {
        self.checked_log10().expect("undefined value for log of zero")
    }

    #[inline]
    fn checked_log10(&self) -> (r: Option<u32>) {
        if 0 == *self {
            return None;
        }
        Some(log10_u16(*self))
    }

    #[inline]
    fn wrapping_next_power_of_ten(&self) -> (r: u16) {
        wrapping_next_power_of_ten_u16(*self)
    }

    #[inline]
    fn checked_next_power_of_ten(&self) -> (r: Option<u16>) {
        let x: u16 = self.wrapping_next_power_of_ten();
        proof {
            lemma_next_pow10_positive(*self as int);
        }
        if x == 0 {
            return None;
        }
        Some(x)
    }

    #[inline]
    fn next_power_of_ten(&self) -> (r: u16) {
        self.checked_next_power_of_ten().expect("overflow in next_power_of_ten")
    }
}

impl Power10 for u32 {
    #[inline]
    fn is_power_of_ten(&self) -> (r: bool) {
        is_pow10_u32(*self)
    }

    #[inline]
    fn log10(&self) -> (r: u32) {
        self.checked_log10().expect("undefined value for log of zero")
    }

    #[inline]
    fn checked_log10(&self) -> (r: Option<u32>) {
        if 0 == *self {
            return None;
        }
        Some(log10_u32(*self))
    }

    #[inline]
    fn wrapping_next_power_of_ten(&self) -> (r: u32) {
        wrapping_next_power_of_ten_u32(*self)
    }

    #[inline]
    fn checked_next_power_of_ten(&self) -> (r: Option<u32>) {
        let x: u32 = self.wrapping_next_power_of_ten();
        proof {
            lemma_next_pow10_positive(*self as int);
        }
        if x == 0 {
            return None;
        }
        Some(x)
    }

    #[inline]
    fn next_power_of_ten(&self) -> (r: u32) {
        self.checked_next_power_of_ten().expect("overflow in next_power_of_ten")
    }
}

impl Power10 for u64 {
    #[inline]
    fn is_power_of_ten(&self) -> (r: bool) {
        is_pow10_u64(*self)
    }

    #[inline]
    fn log10(&self) -> (r: u32) {
        self.checked_log10().expect("undefined value for log of zero")
    }

    #[inline]
    fn checked_log10(&self) -> (r: Option<u32>) {
        if 0 == *self {
            return None;
        }
        Some(log10_u64(*self))
    }

    #[inline]
    fn wrapping_next_power_of_ten(&self) -> (r: u64) {
        wrapping_next_power_of_ten_u64(*self)
    }

    #[inline]
    fn checked_next_power_of_ten(&self) -> (r: Option<u64>) {
        let x: u64 = self.wrapping_next_power_of_ten();
        proof {
            lemma_next_pow10_positive(*self as int);
        }
        if x == 0 {
            return None;
        }
        Some(x)
    }

    #[inline]
    fn next_power_of_ten(&self) -> (r: u64) {
        self.checked_next_power_of_ten().expect("overflow in next_power_of_ten")
    }
}

impl Power10 for u128 {
    #[inline]
    fn is_power_of_ten(&self) -> (r: bool) {
        is_pow10_u128(*self)
    }

    #[inline]
    fn log10(&self) -> (r: u32) {
        self.checked_log10().expect("undefined value for log of zero")
    }

    #[inline]
    fn checked_log10(&self) -> (r: Option<u32>) {
        if 0 == *self {
            return None;
        }
        Some(log10_u128(*self))
    }

    #[inline]
    fn wrapping_next_power_of_ten(&self) -> (r: u128) {
        wrapping_next_power_of_ten_u128(*self)
    }

    #[inline]
    fn checked_next_power_of_ten(&self) -> (r: Option<u128>) {
        let x: u128 = self.wrapping_next_power_of_ten();
        proof {
            lemma_next_pow10_positive(*self as int);
        }
        if x == 0 {
            return None;
        }
        Some(x)
    }

    #[inline]
    fn next_power_of_ten(&self) -> (r: u128) {
        self.checked_next_power_of_ten().expect("overflow in next_power_of_ten")
    }
}

impl Power10 for usize {
    #[inline]
    fn is_power_of_ten(&self) -> (r: bool) {
        is_pow10_usize(*self)
    }

    #[inline]
    fn log10(&self) -> (r: u32) {
        self.checked_log10().expect("undefined value for log of zero")
    }

    #[inline]
    fn checked_log10(&self) -> (r: Option<u32>) {
        if 0 == *self {
            return None;
        }
        Some(log10_usize(*self))
    }

    #[inline]
    fn wrapping_next_power_of_ten(&self) -> (r: usize) {
        wrapping_next_power_of_ten_usize(*self)
    }

    #[inline]
    fn checked_next_power_of_ten(&self) -> (r: Option<usize>) {
        let x: usize = self.wrapping_next_power_of_ten();
        proof {
            lemma_next_pow10_positive(*self as int);
        }
        if x == 0 {
            return None;
        }
        Some(x)
    }

    #[inline]
    fn next_power_of_ten(&self) -> (r: usize) {
        self.checked_next_power_of_ten().expect("overflow in next_power_of_ten")
    }
}

} // verus!
