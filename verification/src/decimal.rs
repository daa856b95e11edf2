//! Base ten: the powers of ten, the number of decimal digits, and the least
//! power of ten above a number, with their values over the range of the
//! widest primitive integer.
use crate::exponent::{
    ceil_log, floor_log, is_power, lemma_floor_log_bounds, lemma_floor_log_of_power,
    lemma_floor_log_unique, lemma_is_power_at_log, lemma_next_power_is_least, lemma_pow_step,
    next_power,
};
use vstd::arithmetic::power::{lemma_pow0, lemma_pow_positive, pow};
use vstd::prelude::*;

verus! {

/// Ten to the power `k`.
pub open spec fn pow10(k: nat) -> int {
    pow(10, k)
}

/// Whether `v` is one of 1, 10, 100, ...
pub open spec fn is_pow10(v: int) -> bool {
    is_power(10, v)
}

/// The base ten logarithm of `v`, rounded down: one less than the number of
/// decimal digits of `v`. It is 0 for `v <= 0`.
pub open spec fn floor_log10(v: int) -> nat {
    floor_log(10, v)
}

/// The least power of ten that is not below `v`.
pub open spec fn next_pow10(v: int) -> int {
    next_power(10, v)
}

/// The powers of ten up to the first one beyond 128 bits.
pub proof fn lemma_pow10_values()
    ensures
        pow(10, 0) == 1,
        pow(10, 1) == 10,
        pow(10, 2) == 100,
        pow(10, 3) == 1_000,
        pow(10, 4) == 10_000,
        pow(10, 5) == 100_000,
        pow(10, 6) == 1_000_000,
        pow(10, 7) == 10_000_000,
        pow(10, 8) == 100_000_000,
        pow(10, 9) == 1_000_000_000,
        pow(10, 10) == 10_000_000_000,
        pow(10, 11) == 100_000_000_000,
        pow(10, 12) == 1_000_000_000_000,
        pow(10, 13) == 10_000_000_000_000,
        pow(10, 14) == 100_000_000_000_000,
        pow(10, 15) == 1_000_000_000_000_000,
        pow(10, 16) == 10_000_000_000_000_000,
        pow(10, 17) == 100_000_000_000_000_000,
        pow(10, 18) == 1_000_000_000_000_000_000,
        pow(10, 19) == 10_000_000_000_000_000_000,
        pow(10, 20) == 100_000_000_000_000_000_000,
        pow(10, 21) == 1_000_000_000_000_000_000_000,
        pow(10, 22) == 10_000_000_000_000_000_000_000,
        pow(10, 23) == 100_000_000_000_000_000_000_000,
        pow(10, 24) == 1_000_000_000_000_000_000_000_000,
        pow(10, 25) == 10_000_000_000_000_000_000_000_000,
        pow(10, 26) == 100_000_000_000_000_000_000_000_000,
        pow(10, 27) == 1_000_000_000_000_000_000_000_000_000,
        pow(10, 28) == 10_000_000_000_000_000_000_000_000_000,
        pow(10, 29) == 100_000_000_000_000_000_000_000_000_000,
        pow(10, 30) == 1_000_000_000_000_000_000_000_000_000_000,
        pow(10, 31) == 10_000_000_000_000_000_000_000_000_000_000,
        pow(10, 32) == 100_000_000_000_000_000_000_000_000_000_000,
        pow(10, 33) == 1_000_000_000_000_000_000_000_000_000_000_000,
        pow(10, 34) == 10_000_000_000_000_000_000_000_000_000_000_000,
        pow(10, 35) == 100_000_000_000_000_000_000_000_000_000_000_000,
        pow(10, 36) == 1_000_000_000_000_000_000_000_000_000_000_000_000,
        pow(10, 37) == 10_000_000_000_000_000_000_000_000_000_000_000_000,
        pow(10, 38) == 100_000_000_000_000_000_000_000_000_000_000_000_000,
        pow(10, 39) == 1_000_000_000_000_000_000_000_000_000_000_000_000_000,
{
    lemma_pow0(10);
    lemma_pow_step(10, 0);
    lemma_pow_step(10, 1);
    lemma_pow_step(10, 2);
    lemma_pow_step(10, 3);
    lemma_pow_step(10, 4);
    lemma_pow_step(10, 5);
    lemma_pow_step(10, 6);
    lemma_pow_step(10, 7);
    lemma_pow_step(10, 8);
    lemma_pow_step(10, 9);
    lemma_pow_step(10, 10);
    lemma_pow_step(10, 11);
    lemma_pow_step(10, 12);
    lemma_pow_step(10, 13);
    lemma_pow_step(10, 14);
    lemma_pow_step(10, 15);
    lemma_pow_step(10, 16);
    lemma_pow_step(10, 17);
    lemma_pow_step(10, 18);
    lemma_pow_step(10, 19);
    lemma_pow_step(10, 20);
    lemma_pow_step(10, 21);
    lemma_pow_step(10, 22);
    lemma_pow_step(10, 23);
    lemma_pow_step(10, 24);
    lemma_pow_step(10, 25);
    lemma_pow_step(10, 26);
    lemma_pow_step(10, 27);
    lemma_pow_step(10, 28);
    lemma_pow_step(10, 29);
    lemma_pow_step(10, 30);
    lemma_pow_step(10, 31);
    lemma_pow_step(10, 32);
    lemma_pow_step(10, 33);
    lemma_pow_step(10, 34);
    lemma_pow_step(10, 35);
    lemma_pow_step(10, 36);
    lemma_pow_step(10, 37);
    lemma_pow_step(10, 38);
}

/// The rounded-down logarithm of every number below `10^39`, read off the
/// decade that the number lies in.
pub proof fn lemma_floor_log10_by_decade(v: int)
    ensures
        1 <= v < 10 ==> floor_log10(v) == 0,
        10 <= v < 100 ==> floor_log10(v) == 1,
        100 <= v < 1_000 ==> floor_log10(v) == 2,
        1_000 <= v < 10_000 ==> floor_log10(v) == 3,
        10_000 <= v < 100_000 ==> floor_log10(v) == 4,
        100_000 <= v < 1_000_000 ==> floor_log10(v) == 5,
        1_000_000 <= v < 10_000_000 ==> floor_log10(v) == 6,
        10_000_000 <= v < 100_000_000 ==> floor_log10(v) == 7,
        100_000_000 <= v < 1_000_000_000 ==> floor_log10(v) == 8,
        1_000_000_000 <= v < 10_000_000_000 ==> floor_log10(v) == 9,
        10_000_000_000 <= v < 100_000_000_000 ==> floor_log10(v) == 10,
        100_000_000_000 <= v < 1_000_000_000_000 ==> floor_log10(v) == 11,
        1_000_000_000_000 <= v < 10_000_000_000_000 ==> floor_log10(v) == 12,
        10_000_000_000_000 <= v < 100_000_000_000_000 ==> floor_log10(v) == 13,
        100_000_000_000_000 <= v < 1_000_000_000_000_000 ==> floor_log10(v) == 14,
        1_000_000_000_000_000 <= v < 10_000_000_000_000_000 ==> floor_log10(v) == 15,
        10_000_000_000_000_000 <= v < 100_000_000_000_000_000 ==> floor_log10(v) == 16,
        100_000_000_000_000_000 <= v < 1_000_000_000_000_000_000 ==> floor_log10(v) == 17,
        1_000_000_000_000_000_000 <= v < 10_000_000_000_000_000_000 ==> floor_log10(v) == 18,
        10_000_000_000_000_000_000 <= v < 100_000_000_000_000_000_000 ==> floor_log10(v) == 19,
        100_000_000_000_000_000_000 <= v < 1_000_000_000_000_000_000_000 ==> floor_log10(v) == 20,
        1_000_000_000_000_000_000_000 <= v < 10_000_000_000_000_000_000_000 ==> floor_log10(v) == 21,
        10_000_000_000_000_000_000_000 <= v < 100_000_000_000_000_000_000_000 ==> floor_log10(v) == 22,
        100_000_000_000_000_000_000_000 <= v < 1_000_000_000_000_000_000_000_000 ==> floor_log10(v) == 23,
        1_000_000_000_000_000_000_000_000 <= v < 10_000_000_000_000_000_000_000_000 ==> floor_log10(v) == 24,
        10_000_000_000_000_000_000_000_000 <= v < 100_000_000_000_000_000_000_000_000 ==> floor_log10(v) == 25,
        100_000_000_000_000_000_000_000_000 <= v < 1_000_000_000_000_000_000_000_000_000 ==> floor_log10(v) == 26,
        1_000_000_000_000_000_000_000_000_000 <= v < 10_000_000_000_000_000_000_000_000_000 ==> floor_log10(v) == 27,
        10_000_000_000_000_000_000_000_000_000 <= v < 100_000_000_000_000_000_000_000_000_000 ==> floor_log10(v) == 28,
        100_000_000_000_000_000_000_000_000_000 <= v < 1_000_000_000_000_000_000_000_000_000_000 ==> floor_log10(v) == 29,
        1_000_000_000_000_000_000_000_000_000_000 <= v < 10_000_000_000_000_000_000_000_000_000_000 ==> floor_log10(v) == 30,
        10_000_000_000_000_000_000_000_000_000_000 <= v < 100_000_000_000_000_000_000_000_000_000_000 ==> floor_log10(v) == 31,
        100_000_000_000_000_000_000_000_000_000_000 <= v < 1_000_000_000_000_000_000_000_000_000_000_000 ==> floor_log10(v) == 32,
        1_000_000_000_000_000_000_000_000_000_000_000 <= v < 10_000_000_000_000_000_000_000_000_000_000_000 ==> floor_log10(v) == 33,
        10_000_000_000_000_000_000_000_000_000_000_000 <= v < 100_000_000_000_000_000_000_000_000_000_000_000 ==> floor_log10(v) == 34,
        100_000_000_000_000_000_000_000_000_000_000_000 <= v < 1_000_000_000_000_000_000_000_000_000_000_000_000 ==> floor_log10(v) == 35,
        1_000_000_000_000_000_000_000_000_000_000_000_000 <= v < 10_000_000_000_000_000_000_000_000_000_000_000_000 ==> floor_log10(v) == 36,
        10_000_000_000_000_000_000_000_000_000_000_000_000 <= v < 100_000_000_000_000_000_000_000_000_000_000_000_000 ==> floor_log10(v) == 37,
        100_000_000_000_000_000_000_000_000_000_000_000_000 <= v < 1_000_000_000_000_000_000_000_000_000_000_000_000_000 ==> floor_log10(v) == 38,
{
    lemma_pow10_values();
    if 1 <= v < 10 {
        lemma_floor_log_unique(10, v, 0);
    }
    if 10 <= v < 100 {
        lemma_floor_log_unique(10, v, 1);
    }
    if 100 <= v < 1_000 {
        lemma_floor_log_unique(10, v, 2);
    }
    if 1_000 <= v < 10_000 {
        lemma_floor_log_unique(10, v, 3);
    }
    if 10_000 <= v < 100_000 {
        lemma_floor_log_unique(10, v, 4);
    }
    if 100_000 <= v < 1_000_000 {
        lemma_floor_log_unique(10, v, 5);
    }
    if 1_000_000 <= v < 10_000_000 {
        lemma_floor_log_unique(10, v, 6);
    }
    if 10_000_000 <= v < 100_000_000 {
        lemma_floor_log_unique(10, v, 7);
    }
    if 100_000_000 <= v < 1_000_000_000 {
        lemma_floor_log_unique(10, v, 8);
    }
    if 1_000_000_000 <= v < 10_000_000_000 {
        lemma_floor_log_unique(10, v, 9);
    }
    if 10_000_000_000 <= v < 100_000_000_000 {
        lemma_floor_log_unique(10, v, 10);
    }
    if 100_000_000_000 <= v < 1_000_000_000_000 {
        lemma_floor_log_unique(10, v, 11);
    }
    if 1_000_000_000_000 <= v < 10_000_000_000_000 {
        lemma_floor_log_unique(10, v, 12);
    }
    if 10_000_000_000_000 <= v < 100_000_000_000_000 {
        lemma_floor_log_unique(10, v, 13);
    }
    if 100_000_000_000_000 <= v < 1_000_000_000_000_000 {
        lemma_floor_log_unique(10, v, 14);
    }
    if 1_000_000_000_000_000 <= v < 10_000_000_000_000_000 {
        lemma_floor_log_unique(10, v, 15);
    }
    if 10_000_000_000_000_000 <= v < 100_000_000_000_000_000 {
        lemma_floor_log_unique(10, v, 16);
    }
    if 100_000_000_000_000_000 <= v < 1_000_000_000_000_000_000 {
        lemma_floor_log_unique(10, v, 17);
    }
    if 1_000_000_000_000_000_000 <= v < 10_000_000_000_000_000_000 {
        lemma_floor_log_unique(10, v, 18);
    }
    if 10_000_000_000_000_000_000 <= v < 100_000_000_000_000_000_000 {
        lemma_floor_log_unique(10, v, 19);
    }
    if 100_000_000_000_000_000_000 <= v < 1_000_000_000_000_000_000_000 {
        lemma_floor_log_unique(10, v, 20);
    }
    if 1_000_000_000_000_000_000_000 <= v < 10_000_000_000_000_000_000_000 {
        lemma_floor_log_unique(10, v, 21);
    }
    if 10_000_000_000_000_000_000_000 <= v < 100_000_000_000_000_000_000_000 {
        lemma_floor_log_unique(10, v, 22);
    }
    if 100_000_000_000_000_000_000_000 <= v < 1_000_000_000_000_000_000_000_000 {
        lemma_floor_log_unique(10, v, 23);
    }
    if 1_000_000_000_000_000_000_000_000 <= v < 10_000_000_000_000_000_000_000_000 {
        lemma_floor_log_unique(10, v, 24);
    }
    if 10_000_000_000_000_000_000_000_000 <= v < 100_000_000_000_000_000_000_000_000 {
        lemma_floor_log_unique(10, v, 25);
    }
    if 100_000_000_000_000_000_000_000_000 <= v < 1_000_000_000_000_000_000_000_000_000 {
        lemma_floor_log_unique(10, v, 26);
    }
    if 1_000_000_000_000_000_000_000_000_000 <= v < 10_000_000_000_000_000_000_000_000_000 {
        lemma_floor_log_unique(10, v, 27);
    }
    if 10_000_000_000_000_000_000_000_000_000 <= v < 100_000_000_000_000_000_000_000_000_000 {
        lemma_floor_log_unique(10, v, 28);
    }
    if 100_000_000_000_000_000_000_000_000_000 <= v < 1_000_000_000_000_000_000_000_000_000_000 {
        lemma_floor_log_unique(10, v, 29);
    }
    if 1_000_000_000_000_000_000_000_000_000_000 <= v < 10_000_000_000_000_000_000_000_000_000_000 {
        lemma_floor_log_unique(10, v, 30);
    }
    if 10_000_000_000_000_000_000_000_000_000_000 <= v < 100_000_000_000_000_000_000_000_000_000_000 {
        lemma_floor_log_unique(10, v, 31);
    }
    if 100_000_000_000_000_000_000_000_000_000_000 <= v < 1_000_000_000_000_000_000_000_000_000_000_000 {
        lemma_floor_log_unique(10, v, 32);
    }
    if 1_000_000_000_000_000_000_000_000_000_000_000 <= v < 10_000_000_000_000_000_000_000_000_000_000_000 {
        lemma_floor_log_unique(10, v, 33);
    }
    if 10_000_000_000_000_000_000_000_000_000_000_000 <= v < 100_000_000_000_000_000_000_000_000_000_000_000 {
        lemma_floor_log_unique(10, v, 34);
    }
    if 100_000_000_000_000_000_000_000_000_000_000_000 <= v < 1_000_000_000_000_000_000_000_000_000_000_000_000 {
        lemma_floor_log_unique(10, v, 35);
    }
    if 1_000_000_000_000_000_000_000_000_000_000_000_000 <= v < 10_000_000_000_000_000_000_000_000_000_000_000_000 {
        lemma_floor_log_unique(10, v, 36);
    }
    if 10_000_000_000_000_000_000_000_000_000_000_000_000 <= v < 100_000_000_000_000_000_000_000_000_000_000_000_000 {
        lemma_floor_log_unique(10, v, 37);
    }
    if 100_000_000_000_000_000_000_000_000_000_000_000_000 <= v < 1_000_000_000_000_000_000_000_000_000_000_000_000_000 {
        lemma_floor_log_unique(10, v, 38);
    }
}

/// Below `10^39` the powers of ten are exactly the listed numbers.
pub proof fn lemma_is_pow10_by_value(v: int)
    requires
        v < 1_000_000_000_000_000_000_000_000_000_000_000_000_000,
    ensures
        is_pow10(v) <==> {
            ||| v == 1
            ||| v == 10
            ||| v == 100
            ||| v == 1_000
            ||| v == 10_000
            ||| v == 100_000
            ||| v == 1_000_000
            ||| v == 10_000_000
            ||| v == 100_000_000
            ||| v == 1_000_000_000
            ||| v == 10_000_000_000
            ||| v == 100_000_000_000
            ||| v == 1_000_000_000_000
            ||| v == 10_000_000_000_000
            ||| v == 100_000_000_000_000
            ||| v == 1_000_000_000_000_000
            ||| v == 10_000_000_000_000_000
            ||| v == 100_000_000_000_000_000
            ||| v == 1_000_000_000_000_000_000
            ||| v == 10_000_000_000_000_000_000
            ||| v == 100_000_000_000_000_000_000
            ||| v == 1_000_000_000_000_000_000_000
            ||| v == 10_000_000_000_000_000_000_000
            ||| v == 100_000_000_000_000_000_000_000
            ||| v == 1_000_000_000_000_000_000_000_000
            ||| v == 10_000_000_000_000_000_000_000_000
            ||| v == 100_000_000_000_000_000_000_000_000
            ||| v == 1_000_000_000_000_000_000_000_000_000
            ||| v == 10_000_000_000_000_000_000_000_000_000
            ||| v == 100_000_000_000_000_000_000_000_000_000
            ||| v == 1_000_000_000_000_000_000_000_000_000_000
            ||| v == 10_000_000_000_000_000_000_000_000_000_000
            ||| v == 100_000_000_000_000_000_000_000_000_000_000
            ||| v == 1_000_000_000_000_000_000_000_000_000_000_000
            ||| v == 10_000_000_000_000_000_000_000_000_000_000_000
            ||| v == 100_000_000_000_000_000_000_000_000_000_000_000
            ||| v == 1_000_000_000_000_000_000_000_000_000_000_000_000
            ||| v == 10_000_000_000_000_000_000_000_000_000_000_000_000
            ||| v == 100_000_000_000_000_000_000_000_000_000_000_000_000
        },
{
    lemma_pow10_values();
    lemma_is_power_at_log(10, v);
    lemma_floor_log10_by_decade(v);
}

/// The least power of ten not below `v`, read off the decade that `v - 1`
/// lies in.
pub proof fn lemma_next_pow10_by_decade(v: int)
    ensures
        v <= 1 ==> next_pow10(v) == 1,
        1 < v <= 10 ==> next_pow10(v) == 10,
        10 < v <= 100 ==> next_pow10(v) == 100,
        100 < v <= 1_000 ==> next_pow10(v) == 1_000,
        1_000 < v <= 10_000 ==> next_pow10(v) == 10_000,
        10_000 < v <= 100_000 ==> next_pow10(v) == 100_000,
        100_000 < v <= 1_000_000 ==> next_pow10(v) == 1_000_000,
        1_000_000 < v <= 10_000_000 ==> next_pow10(v) == 10_000_000,
        10_000_000 < v <= 100_000_000 ==> next_pow10(v) == 100_000_000,
        100_000_000 < v <= 1_000_000_000 ==> next_pow10(v) == 1_000_000_000,
        1_000_000_000 < v <= 10_000_000_000 ==> next_pow10(v) == 10_000_000_000,
        10_000_000_000 < v <= 100_000_000_000 ==> next_pow10(v) == 100_000_000_000,
        100_000_000_000 < v <= 1_000_000_000_000 ==> next_pow10(v) == 1_000_000_000_000,
        1_000_000_000_000 < v <= 10_000_000_000_000 ==> next_pow10(v) == 10_000_000_000_000,
        10_000_000_000_000 < v <= 100_000_000_000_000 ==> next_pow10(v) == 100_000_000_000_000,
        100_000_000_000_000 < v <= 1_000_000_000_000_000 ==> next_pow10(v) == 1_000_000_000_000_000,
        1_000_000_000_000_000 < v <= 10_000_000_000_000_000 ==> next_pow10(v) == 10_000_000_000_000_000,
        10_000_000_000_000_000 < v <= 100_000_000_000_000_000 ==> next_pow10(v) == 100_000_000_000_000_000,
        100_000_000_000_000_000 < v <= 1_000_000_000_000_000_000 ==> next_pow10(v) == 1_000_000_000_000_000_000,
        1_000_000_000_000_000_000 < v <= 10_000_000_000_000_000_000 ==> next_pow10(v) == 10_000_000_000_000_000_000,
        10_000_000_000_000_000_000 < v <= 100_000_000_000_000_000_000 ==> next_pow10(v) == 100_000_000_000_000_000_000,
        100_000_000_000_000_000_000 < v <= 1_000_000_000_000_000_000_000 ==> next_pow10(v) == 1_000_000_000_000_000_000_000,
        1_000_000_000_000_000_000_000 < v <= 10_000_000_000_000_000_000_000 ==> next_pow10(v) == 10_000_000_000_000_000_000_000,
        10_000_000_000_000_000_000_000 < v <= 100_000_000_000_000_000_000_000 ==> next_pow10(v) == 100_000_000_000_000_000_000_000,
        100_000_000_000_000_000_000_000 < v <= 1_000_000_000_000_000_000_000_000 ==> next_pow10(v) == 1_000_000_000_000_000_000_000_000,
        1_000_000_000_000_000_000_000_000 < v <= 10_000_000_000_000_000_000_000_000 ==> next_pow10(v) == 10_000_000_000_000_000_000_000_000,
        10_000_000_000_000_000_000_000_000 < v <= 100_000_000_000_000_000_000_000_000 ==> next_pow10(v) == 100_000_000_000_000_000_000_000_000,
        100_000_000_000_000_000_000_000_000 < v <= 1_000_000_000_000_000_000_000_000_000 ==> next_pow10(v) == 1_000_000_000_000_000_000_000_000_000,
        1_000_000_000_000_000_000_000_000_000 < v <= 10_000_000_000_000_000_000_000_000_000 ==> next_pow10(v) == 10_000_000_000_000_000_000_000_000_000,
        10_000_000_000_000_000_000_000_000_000 < v <= 100_000_000_000_000_000_000_000_000_000 ==> next_pow10(v) == 100_000_000_000_000_000_000_000_000_000,
        100_000_000_000_000_000_000_000_000_000 < v <= 1_000_000_000_000_000_000_000_000_000_000 ==> next_pow10(v) == 1_000_000_000_000_000_000_000_000_000_000,
        1_000_000_000_000_000_000_000_000_000_000 < v <= 10_000_000_000_000_000_000_000_000_000_000 ==> next_pow10(v) == 10_000_000_000_000_000_000_000_000_000_000,
        10_000_000_000_000_000_000_000_000_000_000 < v <= 100_000_000_000_000_000_000_000_000_000_000 ==> next_pow10(v) == 100_000_000_000_000_000_000_000_000_000_000,
        100_000_000_000_000_000_000_000_000_000_000 < v <= 1_000_000_000_000_000_000_000_000_000_000_000 ==> next_pow10(v) == 1_000_000_000_000_000_000_000_000_000_000_000,
        1_000_000_000_000_000_000_000_000_000_000_000 < v <= 10_000_000_000_000_000_000_000_000_000_000_000 ==> next_pow10(v) == 10_000_000_000_000_000_000_000_000_000_000_000,
        10_000_000_000_000_000_000_000_000_000_000_000 < v <= 100_000_000_000_000_000_000_000_000_000_000_000 ==> next_pow10(v) == 100_000_000_000_000_000_000_000_000_000_000_000,
        100_000_000_000_000_000_000_000_000_000_000_000 < v <= 1_000_000_000_000_000_000_000_000_000_000_000_000 ==> next_pow10(v) == 1_000_000_000_000_000_000_000_000_000_000_000_000,
        1_000_000_000_000_000_000_000_000_000_000_000_000 < v <= 10_000_000_000_000_000_000_000_000_000_000_000_000 ==> next_pow10(v) == 10_000_000_000_000_000_000_000_000_000_000_000_000,
        10_000_000_000_000_000_000_000_000_000_000_000_000 < v <= 100_000_000_000_000_000_000_000_000_000_000_000_000 ==> next_pow10(v) == 100_000_000_000_000_000_000_000_000_000_000_000_000,
        100_000_000_000_000_000_000_000_000_000_000_000_000 < v <= 1_000_000_000_000_000_000_000_000_000_000_000_000_000 ==> next_pow10(v) == 1_000_000_000_000_000_000_000_000_000_000_000_000_000,
{
    lemma_pow10_values();
    lemma_floor_log10_by_decade(v - 1);
}

/// Every power of ten is recognised as one, and neither the number just
/// below it nor the number just above it is.
pub proof fn lemma_pow10_neighbours(k: nat)
    ensures
        is_pow10(pow10(k)),
        !is_pow10(pow10(k) - 1),
        !is_pow10(pow10(k) + 1),
{
    let p = pow10(k);
    lemma_pow0(10);
    lemma_pow_positive(10, k);
    lemma_pow_step(10, k);
    lemma_is_power_at_log(10, p - 1);
    lemma_is_power_at_log(10, p + 1);
    lemma_floor_log_unique(10, p + 1, k);
    if k >= 1 {
        let j = (k - 1) as nat;
        lemma_pow_step(10, j);
        lemma_pow_positive(10, j);
        lemma_floor_log_unique(10, p - 1, j);
    }
}

/// At a power of ten the rounded-down logarithm is the exponent; it is one
/// less just below that power, and still the exponent just above it.
pub proof fn lemma_floor_log10_at_power(k: nat)
    ensures
        floor_log10(pow10(k)) == k,
        k >= 1 ==> floor_log10(pow10(k) - 1) == k - 1,
        floor_log10(pow10(k) + 1) == k,
{
    let p = pow10(k);
    lemma_pow_positive(10, k);
    lemma_pow_step(10, k);
    lemma_floor_log_of_power(10, k);
    lemma_floor_log_unique(10, p + 1, k);
    if k >= 1 {
        let j = (k - 1) as nat;
        lemma_pow_step(10, j);
        lemma_pow_positive(10, j);
        lemma_floor_log_unique(10, p - 1, j);
    }
}

/// The rounded-down logarithm of a positive number is the exponent of the
/// decade that holds it: `10^k <= v < 10^(k + 1)` exactly for `k` the logarithm.
pub proof fn lemma_floor_log10_is_decade(v: int, k: nat)
    requires
        v >= 1,
    ensures
        floor_log10(v) == k <==> pow10(k) <= v < pow10(k + 1),
{
    lemma_floor_log_bounds(10, v);
    if pow10(k) <= v < pow10(k + 1) {
        lemma_floor_log_unique(10, v, k);
    }
}

/// The next power of ten is never 0, nor below it.
pub proof fn lemma_next_pow10_positive(v: int)
    ensures
        next_pow10(v) >= 1,
{
    lemma_pow_positive(10, ceil_log(10, v));
}

/// The next power of ten of `v` is a power of ten, is not below `v`, and is
/// the least such: every power of ten `p` with `v <= p` is at least as large.
pub proof fn lemma_next_pow10_is_least(v: int, p: int)
    requires
        is_pow10(p),
        v <= p,
    ensures
        is_pow10(next_pow10(v)),
        v <= next_pow10(v),
        next_pow10(v) <= p,
{
    let k = choose|k: nat| pow(10, k) == p;
    lemma_next_power_is_least(10, v, k);
}

} // verus!
