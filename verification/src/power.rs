//! Powers and logarithms of the unsigned primitive integers with respect to
//! a base that the caller chooses.
use crate::bits::lemma_pow2_values_above_64;
use crate::exponent::{
    floor_log, is_power, lemma_floor_log_below_width, lemma_floor_log_step,
    lemma_next_power_is_least, next_power,
};
use crate::model::Integral;
use vstd::arithmetic::power::{lemma_pow0, pow};
use vstd::arithmetic::power2::{lemma2_to64, pow2};
use vstd::prelude::*;

verus! {

/// Provides methods to compute powers and logarithms with respect to a base
/// given as `other`.
///
/// A logarithm is found by dividing by the base until nothing is left, which
/// needs a base of at least 2. Where the answer does not depend on the base
/// (the logarithm of 0, the next power of 0 or 1), any base will do.
pub trait Power: Integral {
    /// Returns whether `self` is a power of `other`. Zero is never one.
    fn is_power_of(&self, other: &Self) -> (r: bool)
        requires
            self.int_value() <= 1 || other.int_value() >= 2,
        ensures
            r == (self.int_value() != 0 && is_power(other.int_value(), self.int_value())),
    ;

    /// Returns the truncated base-`other` logarithm of `self`, which must
    /// not be zero. The implementations for the primitive types panic on a
    /// zero that reaches them unchecked.
    fn log(&self, other: &Self) -> (r: u32)
        requires
            self.int_value() != 0,
            other.int_value() >= 2,
        ensures
            r == floor_log(other.int_value(), self.int_value()),
    ;

    /// Returns the truncated base-`other` logarithm of `self`, or `None` if
    /// `self` is zero.
    fn checked_log(&self, other: &Self) -> (r: Option<u32>)
        requires
            self.int_value() == 0 || other.int_value() >= 2,
        ensures
            match r {
                Some(d) => self.int_value() != 0 && d == floor_log(
                    other.int_value(),
                    self.int_value(),
                ),
                None => self.int_value() == 0,
            },
    ;

    /// Returns the least power of `other` not less than `self`, or 0 if the
    /// value is out of bounds of the type.
    fn wrapping_next_power_of(&self, other: &Self) -> (r: Self)
        requires
            self.int_value() <= 1 || other.int_value() >= 2,
        ensures
            r.int_value() == if Self::in_range(next_power(other.int_value(), self.int_value())) {
                next_power(other.int_value(), self.int_value())
            } else {
                0
            },
    ;

    /// Returns the least power of `other` not less than `self`, or `None` if
    /// the value is out of bounds of the type.
    fn checked_next_power_of(&self, other: &Self) -> (r: Option<Self>)
        requires
            self.int_value() <= 1 || other.int_value() >= 2,
        ensures
            match r {
                Some(p) => Self::in_range(next_power(other.int_value(), self.int_value()))
                    && p.int_value() == next_power(other.int_value(), self.int_value()),
                None => !Self::in_range(next_power(other.int_value(), self.int_value())),
            },
    ;

    /// Returns the least power of `other` not less than `self`, which must be
    /// within the bounds of the type. The implementations for the primitive
    /// types panic on a value that reaches them unchecked and has no such
    /// power.
    fn next_power_of(&self, other: &Self) -> (r: Self)
        requires
            self.int_value() <= 1 || other.int_value() >= 2,
            Self::in_range(next_power(other.int_value(), self.int_value())),
        ensures
            r.int_value() == next_power(other.int_value(), self.int_value()),
    ;
}

/// `num_traits::checked_pow` raises `base` to the power `exp` by repeated
/// squaring with checked multiplications. On an unsigned type no product that
/// it forms exceeds the power itself, so it gives the power where that fits
/// in 128 bits and `None` where it does not. Taken on trust.
#[verifier::external_body]
fn checked_pow_u128(base: u128, exp: usize) -> (r: Option<u128>)
    ensures
        match r {
            Some(p) => p == pow(base as int, exp as nat),
            None => pow(base as int, exp as nat) > u128::MAX,
        },
{
    num_traits::checked_pow(base, exp)
}

/// The widths of the primitive types as powers of two.
proof fn lemma_pow2_values()
    ensures
        pow2(8) == 0x100,
        pow2(16) == 0x1_0000,
        pow2(32) == 0x1_0000_0000,
        pow2(64) == 0x1_0000_0000_0000_0000,
        pow2(128) == 0x1_0000_0000_0000_0000_0000_0000_0000_0000,
{
    lemma2_to64();
    lemma_pow2_values_above_64();
}

/// A number is a power of the base exactly when it is not 0 and is its own
/// next power.
proof fn lemma_is_power_by_next_power(base: int, v: int)
    requires
        0 <= v,
        v <= 1 || base >= 2,
    ensures
        (v != 0 && is_power(base, v)) <==> v == next_power(base, v),
{
    if v <= 1 {
        lemma_pow0(base);
    } else {
        lemma_next_power_is_least(base, v, 0);
        if is_power(base, v) {
            let k = choose|k: nat| pow(base, k) == v;
            lemma_next_power_is_least(base, v, k);
        }
    }
}

impl Power for usize {
    #[inline]
    fn is_power_of(&self, other: &usize) -> (r: bool) {
        proof {
            lemma_is_power_by_next_power(*other as int, *self as int);
        }
        match self.checked_next_power_of(other) {
            None => false,
            Some(new) => *self == new,
        }
    }

    #[inline]
    fn log(&self, other: &usize) -> (r: u32) {
        self.checked_log(other).expect("log: `self` is zero")
    }

    #[inline]
    fn checked_log(&self, other: &usize) -> (r: Option<u32>) {
        let mut n: usize = *self;
        let mut a: Option<u32> = None;
        while n != 0
            invariant
                *self == 0 || *other >= 2,
                match a {
                    None => n == *self,
                    Some(c) => *self != 0 && if n != 0 {
                        c + 1 + floor_log(*other as int, n as int) == floor_log(
                            *other as int,
                            *self as int,
                        )
                    } else {
                        c == floor_log(*other as int, *self as int)
                    },
                },
            decreases n,
        {
            proof {
                lemma_pow2_values();
                lemma_floor_log_below_width(*other as int, *self as int, 64);
                lemma_floor_log_step(*other as int, n as int);
            }
            a = Some(
                match a {
                    None => 0,
                    Some(c) => c + 1,
                },
            );
            n /= *other;
        }
        a
    }

    #[inline]
    fn wrapping_next_power_of(&self, other: &usize) -> (r: usize) {
        self.checked_next_power_of(other).unwrap_or(0)
    }

    #[inline]
    fn checked_next_power_of(&self, other: &usize) -> (r: Option<usize>) {
        match self.checked_sub(1) {
            None => {
                proof {
                    lemma_pow0(*other as int);
                }
                Some(1)
            },
            Some(new) => {
                let exp: usize = match new.checked_log(other) {
                    None => 0,
                    Some(a) => {
                        proof {
                            lemma_pow2_values();
                            lemma_floor_log_below_width(*other as int, new as int, 64);
                        }
                        (a + 1) as usize
                    },
                };
                match checked_pow_u128(*other as u128, exp) {
                    Some(p) => if p <= usize::MAX as u128 {
                        Some(p as usize)
                    } else {
                        None
                    },
                    None => None,
                }
            },
        }
    }

    #[inline]
    fn next_power_of(&self, other: &usize) -> (r: usize) {
        self.checked_next_power_of(other).expect("checked_next_power_of: out of range")
    }
}

impl Power for u8 {
    #[inline]
    fn is_power_of(&self, other: &u8) -> (r: bool) {
        proof {
            lemma_is_power_by_next_power(*other as int, *self as int);
        }
        match self.checked_next_power_of(other) {
            None => false,
            Some(new) => *self == new,
        }
    }

    #[inline]
    fn log(&self, other: &u8) -> (r: u32) {
        self.checked_log(other).expect("log: `self` is zero")
    }

    #[inline]
    fn checked_log(&self, other: &u8) -> (r: Option<u32>) {
        let mut n: u8 = *self;
        let mut a: Option<u32> = None;
        while n != 0
            invariant
                *self == 0 || *other >= 2,
                match a {
                    None => n == *self,
                    Some(c) => *self != 0 && if n != 0 {
                        c + 1 + floor_log(*other as int, n as int) == floor_log(
                            *other as int,
                            *self as int,
                        )
                    } else {
                        c == floor_log(*other as int, *self as int)
                    },
                },
            decreases n,
        {
            proof {
                lemma_pow2_values();
                lemma_floor_log_below_width(*other as int, *self as int, 8);
                lemma_floor_log_step(*other as int, n as int);
            }
            a = Some(
                match a {
                    None => 0,
                    Some(c) => c + 1,
                },
            );
            n /= *other;
        }
        a
    }

    #[inline]
    fn wrapping_next_power_of(&self, other: &u8) -> (r: u8) {
        self.checked_next_power_of(other).unwrap_or(0)
    }

    #[inline]
    fn checked_next_power_of(&self, other: &u8) -> (r: Option<u8>) {
        match self.checked_sub(1) {
            None => {
                proof {
                    lemma_pow0(*other as int);
                }
                Some(1)
            },
            Some(new) => {
                let exp: usize = match new.checked_log(other) {
                    None => 0,
                    Some(a) => {
                        proof {
                            lemma_pow2_values();
                            lemma_floor_log_below_width(*other as int, new as int, 8);
                        }
                        (a + 1) as usize
                    },
                };
                match checked_pow_u128(*other as u128, exp) {
                    Some(p) => if p <= u8::MAX as u128 {
                        Some(p as u8)
                    } else {
                        None
                    },
                    None => None,
                }
            },
        }
    }

    #[inline]
    fn next_power_of(&self, other: &u8) -> (r: u8) {
        self.checked_next_power_of(other).expect("checked_next_power_of: out of range")
    }
}

impl Power for u16 {
    #[inline]
    fn is_power_of(&self, other: &u16) -> (r: bool) {
        proof {
            lemma_is_power_by_next_power(*other as int, *self as int);
        }
        match self.checked_next_power_of(other) {
            None => false,
            Some(new) => *self == new,
        }
    }

    #[inline]
    fn log(&self, other: &u16) -> (r: u32) {
        self.checked_log(other).expect("log: `self` is zero")
    }

    #[inline]
    fn checked_log(&self, other: &u16) -> (r: Option<u32>) {
        let mut n: u16 = *self;
        let mut a: Option<u32> = None;
        while n != 0
            invariant
                *self == 0 || *other >= 2,
                match a {
                    None => n == *self,
                    Some(c) => *self != 0 && if n != 0 {
                        c + 1 + floor_log(*other as int, n as int) == floor_log(
                            *other as int,
                            *self as int,
                        )
                    } else {
                        c == floor_log(*other as int, *self as int)
                    },
                },
            decreases n,
        {
            proof {
                lemma_pow2_values();
                lemma_floor_log_below_width(*other as int, *self as int, 16);
                lemma_floor_log_step(*other as int, n as int);
            }
            a = Some(
                match a {
                    None => 0,
                    Some(c) => c + 1,
                },
            );
            n /= *other;
        }
        a
    }

    #[inline]
    fn wrapping_next_power_of(&self, other: &u16) -> (r: u16) {
        self.checked_next_power_of(other).unwrap_or(0)
    }

    #[inline]
    fn checked_next_power_of(&self, other: &u16) -> (r: Option<u16>) {
        match self.checked_sub(1) {
            None => {
                proof {
                    lemma_pow0(*other as int);
                }
                Some(1)
            },
            Some(new) => {
                let exp: usize = match new.checked_log(other) {
                    None => 0,
                    Some(a) => {
                        proof {
                            lemma_pow2_values();
                            lemma_floor_log_below_width(*other as int, new as int, 16);
                        }
                        (a + 1) as usize
                    },
                };
                match checked_pow_u128(*other as u128, exp) {
                    Some(p) => if p <= u16::MAX as u128 {
                        Some(p as u16)
                    } else {
                        None
                    },
                    None => None,
                }
            },
        }
    }

    #[inline]
    fn next_power_of(&self, other: &u16) -> (r: u16) {
        self.checked_next_power_of(other).expect("checked_next_power_of: out of range")
    }
}

impl Power for u32 {
    #[inline]
    fn is_power_of(&self, other: &u32) -> (r: bool) {
        proof {
            lemma_is_power_by_next_power(*other as int, *self as int);
        }
        match self.checked_next_power_of(other) {
            None => false,
            Some(new) => *self == new,
        }
    }

    #[inline]
    fn log(&self, other: &u32) -> (r: u32) {
        self.checked_log(other).expect("log: `self` is zero")
    }

    #[inline]
    fn checked_log(&self, other: &u32) -> (r: Option<u32>) {
        let mut n: u32 = *self;
        let mut a: Option<u32> = None;
        while n != 0
            invariant
                *self == 0 || *other >= 2,
                match a {
                    None => n == *self,
                    Some(c) => *self != 0 && if n != 0 {
                        c + 1 + floor_log(*other as int, n as int) == floor_log(
                            *other as int,
                            *self as int,
                        )
                    } else {
                        c == floor_log(*other as int, *self as int)
                    },
                },
            decreases n,
        {
            proof {
                lemma_pow2_values();
                lemma_floor_log_below_width(*other as int, *self as int, 32);
                lemma_floor_log_step(*other as int, n as int);
            }
            a = Some(
                match a {
                    None => 0,
                    Some(c) => c + 1,
                },
            );
            n /= *other;
        }
        a
    }

    #[inline]
    fn wrapping_next_power_of(&self, other: &u32) -> (r: u32) {
        self.checked_next_power_of(other).unwrap_or(0)
    }

    #[inline]
    fn checked_next_power_of(&self, other: &u32) -> (r: Option<u32>) {
        match self.checked_sub(1) {
            None => {
                proof {
                    lemma_pow0(*other as int);
                }
                Some(1)
            },
            Some(new) => {
                let exp: usize = match new.checked_log(other) {
                    None => 0,
                    Some(a) => {
                        proof {
                            lemma_pow2_values();
                            lemma_floor_log_below_width(*other as int, new as int, 32);
                        }
                        (a + 1) as usize
                    },
                };
                match checked_pow_u128(*other as u128, exp) {
                    Some(p) => if p <= u32::MAX as u128 {
                        Some(p as u32)
                    } else {
                        None
                    },
                    None => None,
                }
            },
        }
    }

    #[inline]
    fn next_power_of(&self, other: &u32) -> (r: u32) {
        self.checked_next_power_of(other).expect("checked_next_power_of: out of range")
    }
}

impl Power for u64 {
    #[inline]
    fn is_power_of(&self, other: &u64) -> (r: bool) {
        proof {
            lemma_is_power_by_next_power(*other as int, *self as int);
        }
        match self.checked_next_power_of(other) {
            None => false,
            Some(new) => *self == new,
        }
    }

    #[inline]
    fn log(&self, other: &u64) -> (r: u32) {
        self.checked_log(other).expect("log: `self` is zero")
    }

    #[inline]
    fn checked_log(&self, other: &u64) -> (r: Option<u32>) {
        let mut n: u64 = *self;
        let mut a: Option<u32> = None;
        while n != 0
            invariant
                *self == 0 || *other >= 2,
                match a {
                    None => n == *self,
                    Some(c) => *self != 0 && if n != 0 {
                        c + 1 + floor_log(*other as int, n as int) == floor_log(
                            *other as int,
                            *self as int,
                        )
                    } else {
                        c == floor_log(*other as int, *self as int)
                    },
                },
            decreases n,
        {
            proof {
                lemma_pow2_values();
                lemma_floor_log_below_width(*other as int, *self as int, 64);
                lemma_floor_log_step(*other as int, n as int);
            }
            a = Some(
                match a {
                    None => 0,
                    Some(c) => c + 1,
                },
            );
            n /= *other;
        }
        a
    }

    #[inline]
    fn wrapping_next_power_of(&self, other: &u64) -> (r: u64) {
        self.checked_next_power_of(other).unwrap_or(0)
    }

    #[inline]
    fn checked_next_power_of(&self, other: &u64) -> (r: Option<u64>) {
        match self.checked_sub(1) {
            None => {
                proof {
                    lemma_pow0(*other as int);
                }
                Some(1)
            },
            Some(new) => {
                let exp: usize = match new.checked_log(other) {
                    None => 0,
                    Some(a) => {
                        proof {
                            lemma_pow2_values();
                            lemma_floor_log_below_width(*other as int, new as int, 64);
                        }
                        (a + 1) as usize
                    },
                };
                match checked_pow_u128(*other as u128, exp) {
                    Some(p) => if p <= u64::MAX as u128 {
                        Some(p as u64)
                    } else {
                        None
                    },
                    None => None,
                }
            },
        }
    }

    #[inline]
    fn next_power_of(&self, other: &u64) -> (r: u64) {
        self.checked_next_power_of(other).expect("checked_next_power_of: out of range")
    }
}

impl Power for u128 {
    #[inline]
    fn is_power_of(&self, other: &u128) -> (r: bool) {
        proof {
            lemma_is_power_by_next_power(*other as int, *self as int);
        }
        match self.checked_next_power_of(other) {
            None => false,
            Some(new) => *self == new,
        }
    }

    #[inline]
    fn log(&self, other: &u128) -> (r: u32) {
        self.checked_log(other).expect("log: `self` is zero")
    }

    #[inline]
    fn checked_log(&self, other: &u128) -> (r: Option<u32>) {
        let mut n: u128 = *self;
        let mut a: Option<u32> = None;
        while n != 0
            invariant
                *self == 0 || *other >= 2,
                match a {
                    None => n == *self,
                    Some(c) => *self != 0 && if n != 0 {
                        c + 1 + floor_log(*other as int, n as int) == floor_log(
                            *other as int,
                            *self as int,
                        )
                    } else {
                        c == floor_log(*other as int, *self as int)
                    },
                },
            decreases n,
        {
            proof {
                lemma_pow2_values();
                lemma_floor_log_below_width(*other as int, *self as int, 128);
                lemma_floor_log_step(*other as int, n as int);
            }
            a = Some(
                match a {
                    None => 0,
                    Some(c) => c + 1,
                },
            );
            n /= *other;
        }
        a
    }

    #[inline]
    fn wrapping_next_power_of(&self, other: &u128) -> (r: u128) {
        self.checked_next_power_of(other).unwrap_or(0)
    }

    #[inline]
    fn checked_next_power_of(&self, other: &u128) -> (r: Option<u128>) {
        match self.checked_sub(1) {
            None => {
                proof {
                    lemma_pow0(*other as int);
                }
                Some(1)
            },
            Some(new) => {
                let exp: usize = match new.checked_log(other) {
                    None => 0,
                    Some(a) => {
                        proof {
                            lemma_pow2_values();
                            lemma_floor_log_below_width(*other as int, new as int, 128);
                        }
                        (a + 1) as usize
                    },
                };
                checked_pow_u128(*other, exp)
            },
        }
    }

    #[inline]
    fn next_power_of(&self, other: &u128) -> (r: u128) {
        self.checked_next_power_of(other).expect("checked_next_power_of: out of range")
    }
}

} // verus!
