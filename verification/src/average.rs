//! The average of two integers, rounded down or up, computed without the
//! sum, which need not fit in the type.
use crate::model::Integral;
use vstd::prelude::*;

verus! {

/// The average of `a` and `b`, rounded towards negative infinity: `⌊(a + b) / 2⌋`.
pub open spec fn floor_average(a: int, b: int) -> int {
    (a + b) / 2
}

/// The average of `a` and `b`, rounded towards positive infinity: `⌈(a + b) / 2⌉`.
pub open spec fn ceil_average(a: int, b: int) -> int {
    (a + b + 1) / 2
}

/// The two averages are the integers on either side of half the sum: they
/// differ by at most one, and both lie between the two arguments.
pub proof fn lemma_average_bounds(a: int, b: int)
    ensures
        2 * floor_average(a, b) <= a + b <= 2 * floor_average(a, b) + 1,
        2 * ceil_average(a, b) - 1 <= a + b <= 2 * ceil_average(a, b),
        a <= b ==> a <= floor_average(a, b) <= ceil_average(a, b) <= b,
        b <= a ==> b <= floor_average(a, b) <= ceil_average(a, b) <= a,
        floor_average(a, b) == floor_average(b, a),
        ceil_average(a, b) == ceil_average(b, a),
{
}

/// Provides methods to compute the average of two integers, without overflows.
pub trait Average: Integral {
    /// Returns the ceiling value of the average of `self` and `other`:
    /// `⌈(self + other)/2⌉`.
    fn average_ceil(&self, other: &Self) -> (r: Self)
        ensures
            r.int_value() == ceil_average(self.int_value(), other.int_value()),
    ;

    /// Returns the floor value of the average of `self` and `other`:
    /// `⌊(self + other)/2⌋`.
    fn average_floor(&self, other: &Self) -> (r: Self)
        ensures
            r.int_value() == floor_average(self.int_value(), other.int_value()),
    ;
}

/// Returns the floor value of the average of `x` and `y`.
#[inline]
pub fn average_floor<T: Average>(x: &T, y: &T) -> (r: T)
    ensures
        r.int_value() == floor_average(x.int_value(), y.int_value()),
{
    x.average_floor(y)
}

/// Returns the ceiling value of the average of `x` and `y`.
#[inline]
pub fn average_ceil<T: Average>(x: &T, y: &T) -> (r: T)
    ensures
        r.int_value() == ceil_average(x.int_value(), y.int_value()),
{
    x.average_ceil(y)
}

// The implementations use the identities of Henry Gordon Dietz, as shown in
// Hacker's Delight: the bits that both numbers share count in full, those in
// which they differ count half.

/// The two bit identities on `u8`, where the sums are taken without wrapping.
proof fn lemma_average_u8(a: u8, b: u8)
    by (bit_vector)
    ensures
        (a & b) + ((a ^ b) >> 1) == (a + b) / 2 && (a | b) - ((a ^ b) >> 1) == (a + b + 1) / 2,
{
}

impl Average for u8 {
    #[inline]
    fn average_ceil(&self, other: &u8) -> (r: u8) {
        proof {
            lemma_average_u8(*self, *other);
        }
        (*self | *other) - ((*self ^ *other) >> 1)
    }

    #[inline]
    fn average_floor(&self, other: &u8) -> (r: u8) {
        proof {
            lemma_average_u8(*self, *other);
        }
        (*self & *other) + ((*self ^ *other) >> 1)
    }
}

/// The two bit identities on `u16`, where the sums are taken without wrapping.
proof fn lemma_average_u16(a: u16, b: u16)
    by (bit_vector)
    ensures
        (a & b) + ((a ^ b) >> 1) == (a + b) / 2 && (a | b) - ((a ^ b) >> 1) == (a + b + 1) / 2,
{
}

impl Average for u16 {
    #[inline]
    fn average_ceil(&self, other: &u16) -> (r: u16) {
        proof {
            lemma_average_u16(*self, *other);
        }
        (*self | *other) - ((*self ^ *other) >> 1)
    }

    #[inline]
    fn average_floor(&self, other: &u16) -> (r: u16) {
        proof {
            lemma_average_u16(*self, *other);
        }
        (*self & *other) + ((*self ^ *other) >> 1)
    }
}

/// The two bit identities on `u32`, where the sums are taken without wrapping.
proof fn lemma_average_u32(a: u32, b: u32)
    by (bit_vector)
    ensures
        (a & b) + ((a ^ b) >> 1) == (a + b) / 2 && (a | b) - ((a ^ b) >> 1) == (a + b + 1) / 2,
{
}

impl Average for u32 {
    #[inline]
    fn average_ceil(&self, other: &u32) -> (r: u32) {
        proof {
            lemma_average_u32(*self, *other);
        }
        (*self | *other) - ((*self ^ *other) >> 1)
    }

    #[inline]
    fn average_floor(&self, other: &u32) -> (r: u32) {
        proof {
            lemma_average_u32(*self, *other);
        }
        (*self & *other) + ((*self ^ *other) >> 1)
    }
}

/// The two bit identities on `u64`, where the sums are taken without wrapping.
proof fn lemma_average_u64(a: u64, b: u64)
    by (bit_vector)
    ensures
        (a & b) + ((a ^ b) >> 1) == (a + b) / 2 && (a | b) - ((a ^ b) >> 1) == (a + b + 1) / 2,
{
}

impl Average for u64 {
    #[inline]
    fn average_ceil(&self, other: &u64) -> (r: u64) {
        proof {
            lemma_average_u64(*self, *other);
        }
        (*self | *other) - ((*self ^ *other) >> 1)
    }

    #[inline]
    fn average_floor(&self, other: &u64) -> (r: u64) {
        proof {
            lemma_average_u64(*self, *other);
        }
        (*self & *other) + ((*self ^ *other) >> 1)
    }
}

/// The two bit identities on `u128`, where the sums are taken without wrapping.
proof fn lemma_average_u128(a: u128, b: u128)
    by (bit_vector)
    ensures
        (a & b) + ((a ^ b) >> 1) == (a + b) / 2 && (a | b) - ((a ^ b) >> 1) == (a + b + 1) / 2,
{
}

impl Average for u128 {
    #[inline]
    fn average_ceil(&self, other: &u128) -> (r: u128) {
        proof {
            lemma_average_u128(*self, *other);
        }
        (*self | *other) - ((*self ^ *other) >> 1)
    }

    #[inline]
    fn average_floor(&self, other: &u128) -> (r: u128) {
        proof {
            lemma_average_u128(*self, *other);
        }
        (*self & *other) + ((*self ^ *other) >> 1)
    }
}

/// The two bit identities on `usize`, where the sums are taken without wrapping.
proof fn lemma_average_usize(a: usize, b: usize)
    by (bit_vector)
    ensures
        (a & b) + ((a ^ b) >> 1) == (a + b) / 2 && (a | b) - ((a ^ b) >> 1) == (a + b + 1) / 2,
{
}

impl Average for usize {
    #[inline]
    fn average_ceil(&self, other: &usize) -> (r: usize) {
        proof {
            lemma_average_usize(*self, *other);
        }
        (*self | *other) - ((*self ^ *other) >> 1)
    }

    #[inline]
    fn average_floor(&self, other: &usize) -> (r: usize) {
        proof {
            lemma_average_usize(*self, *other);
        }
        (*self & *other) + ((*self ^ *other) >> 1)
    }
}

/// The two bit identities on `i8`, where the sums are taken without wrapping.
proof fn lemma_average_i8(a: i8, b: i8)
    by (bit_vector)
    ensures
        (a & b) + ((a ^ b) >> 1) == (a + b) / 2 && (a | b) - ((a ^ b) >> 1) == (a + b + 1) / 2,
{
}

impl Average for i8 {
    #[inline]
    fn average_ceil(&self, other: &i8) -> (r: i8) {
        proof {
            lemma_average_i8(*self, *other);
        }
        (*self | *other) - ((*self ^ *other) >> 1)
    }

    #[inline]
    fn average_floor(&self, other: &i8) -> (r: i8) {
        proof {
            lemma_average_i8(*self, *other);
        }
        (*self & *other) + ((*self ^ *other) >> 1)
    }
}

/// The two bit identities on `i16`, where the sums are taken without wrapping.
proof fn lemma_average_i16(a: i16, b: i16)
    by (bit_vector)
    ensures
        (a & b) + ((a ^ b) >> 1) == (a + b) / 2 && (a | b) - ((a ^ b) >> 1) == (a + b + 1) / 2,
{
}

impl Average for i16 {
    #[inline]
    fn average_ceil(&self, other: &i16) -> (r: i16) {
        proof {
            lemma_average_i16(*self, *other);
        }
        (*self | *other) - ((*self ^ *other) >> 1)
    }

    #[inline]
    fn average_floor(&self, other: &i16) -> (r: i16) {
        proof {
            lemma_average_i16(*self, *other);
        }
        (*self & *other) + ((*self ^ *other) >> 1)
    }
}

/// The two bit identities on `i32`, where the sums are taken without wrapping.
proof fn lemma_average_i32(a: i32, b: i32)
    by (bit_vector)
    ensures
        (a & b) + ((a ^ b) >> 1) == (a + b) / 2 && (a | b) - ((a ^ b) >> 1) == (a + b + 1) / 2,
{
}

impl Average for i32 {
    #[inline]
    fn average_ceil(&self, other: &i32) -> (r: i32) {
        proof {
            lemma_average_i32(*self, *other);
        }
        (*self | *other) - ((*self ^ *other) >> 1)
    }

    #[inline]
    fn average_floor(&self, other: &i32) -> (r: i32) {
        proof {
            lemma_average_i32(*self, *other);
        }
        (*self & *other) + ((*self ^ *other) >> 1)
    }
}

/// The two bit identities on `i64`, where the sums are taken without wrapping.
proof fn lemma_average_i64(a: i64, b: i64)
    by (bit_vector)
    ensures
        (a & b) + ((a ^ b) >> 1) == (a + b) / 2 && (a | b) - ((a ^ b) >> 1) == (a + b + 1) / 2,
{
}

impl Average for i64 {
    #[inline]
    fn average_ceil(&self, other: &i64) -> (r: i64) {
        proof {
            lemma_average_i64(*self, *other);
        }
        (*self | *other) - ((*self ^ *other) >> 1)
    }

    #[inline]
    fn average_floor(&self, other: &i64) -> (r: i64) {
        proof {
            lemma_average_i64(*self, *other);
        }
        (*self & *other) + ((*self ^ *other) >> 1)
    }
}

/// The two bit identities on `i128`, where the sums are taken without wrapping.
proof fn lemma_average_i128(a: i128, b: i128)
    by (bit_vector)
    ensures
        (a & b) + ((a ^ b) >> 1) == (a + b) / 2 && (a | b) - ((a ^ b) >> 1) == (a + b + 1) / 2,
{
}

impl Average for i128 {
    #[inline]
    fn average_ceil(&self, other: &i128) -> (r: i128) {
        proof {
            lemma_average_i128(*self, *other);
        }
        (*self | *other) - ((*self ^ *other) >> 1)
    }

    #[inline]
    fn average_floor(&self, other: &i128) -> (r: i128) {
        proof {
            lemma_average_i128(*self, *other);
        }
        (*self & *other) + ((*self ^ *other) >> 1)
    }
}

/// The two bit identities on `isize`, where the sums are taken without wrapping.
proof fn lemma_average_isize(a: isize, b: isize)
    by (bit_vector)
    ensures
        (a & b) + ((a ^ b) >> 1) == (a + b) / 2 && (a | b) - ((a ^ b) >> 1) == (a + b + 1) / 2,
{
}

impl Average for isize {
    #[inline]
    fn average_ceil(&self, other: &isize) -> (r: isize) {
        proof {
            lemma_average_isize(*self, *other);
        }
        (*self | *other) - ((*self ^ *other) >> 1)
    }

    #[inline]
    fn average_floor(&self, other: &isize) -> (r: isize) {
        proof {
            lemma_average_isize(*self, *other);
        }
        (*self & *other) + ((*self ^ *other) >> 1)
    }
}

} // verus!
