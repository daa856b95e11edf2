//! Powers and integer logarithms with respect to a base of at least two, as
//! mathematical functions, and the facts that tie them together.
use vstd::arithmetic::logarithm::{lemma_log_nonnegative, lemma_log_s, log};
use vstd::arithmetic::power::{
    lemma_pow0, lemma_pow1, lemma_pow_increases, lemma_pow_positive,
    lemma_pow_strictly_increases, lemma_pow_strictly_increases_converse, pow,
};
use vstd::arithmetic::power2::{lemma2_to64, lemma_pow2_unfold, pow2};
use vstd::prelude::*;

verus! {

/// Whether `v` is `base` raised to some natural exponent.
pub open spec fn is_power(base: int, v: int) -> bool {
    exists|k: nat| pow(base, k) == v
}

/// The logarithm of `v` in `base`, rounded down: the `k` with
/// `base^k <= v < base^(k + 1)`. It is 0 for `v <= 0`.
pub open spec fn floor_log(base: int, v: int) -> nat {
    if v <= 0 {
        0
    } else {
        log(base, v) as nat
    }
}

/// The logarithm of `v` in `base`, rounded up: the least `k` with `v <= base^k`.
pub open spec fn ceil_log(base: int, v: int) -> nat {
    if v <= 1 {
        0
    } else {
        floor_log(base, v - 1) + 1
    }
}

/// The least power of `base` that is not below `v`.
pub open spec fn next_power(base: int, v: int) -> int {
    pow(base, ceil_log(base, v))
}

/// One more factor of the base: `base^(k + 1) == base * base^k`.
pub proof fn lemma_pow_step(base: int, k: nat)
    ensures
        pow(base, k + 1) == base * pow(base, k),
{
    reveal(pow);
}

/// For `v >= 1` the rounded-down logarithm brackets `v` between two
/// neighbouring powers of the base.
pub proof fn lemma_floor_log_bounds(base: int, v: int)
    requires
        base >= 2,
        v >= 1,
    ensures
        pow(base, floor_log(base, v)) <= v < pow(base, floor_log(base, v) + 1),
    decreases v,
{
    lemma_log_nonnegative(base, v);
    if v < base {
        reveal(log);
        lemma_pow0(base);
        lemma_pow1(base);
    } else {
        let q = v / base;
        lemma_log_s(base, v);
        assert(q >= 1 && q < v && base * q <= v < base * q + base) by (nonlinear_arith)
            requires
                base >= 2,
                v >= base,
                q == v / base,
        ;
        lemma_log_nonnegative(base, q);
        lemma_floor_log_bounds(base, q);
        let k = floor_log(base, q);
        assert(floor_log(base, v) == k + 1);
        lemma_pow_step(base, k);
        lemma_pow_step(base, k + 1);
        let lo = pow(base, k);
        let hi = pow(base, k + 1);
        assert(base * lo <= v && v < base * hi) by (nonlinear_arith)
            requires
                base >= 2,
                lo <= q,
                q + 1 <= hi,
                base * q <= v < base * q + base,
        ;
    }
}

/// The bracket determines the logarithm: if `base^k <= v < base^(k + 1)`,
/// then `k` is the rounded-down logarithm of `v`.
pub proof fn lemma_floor_log_unique(base: int, v: int, k: nat)
    requires
        base >= 2,
        pow(base, k) <= v < pow(base, k + 1),
    ensures
        floor_log(base, v) == k,
{
    lemma_pow_positive(base, k);
    lemma_floor_log_bounds(base, v);
    let j = floor_log(base, v);
    lemma_pow_strictly_increases_converse(base as nat, j, k + 1);
    lemma_pow_strictly_increases_converse(base as nat, k, j + 1);
}

/// The logarithm of a power is its exponent.
pub proof fn lemma_floor_log_of_power(base: int, k: nat)
    requires
        base >= 2,
    ensures
        floor_log(base, pow(base, k)) == k,
{
    lemma_pow_strictly_increases(base as nat, k, k + 1);
    lemma_floor_log_unique(base, pow(base, k), k);
}

/// A positive number is a power of the base exactly when it equals the
/// power at its own logarithm.
pub proof fn lemma_is_power_at_log(base: int, v: int)
    requires
        base >= 2,
    ensures
        is_power(base, v) <==> v >= 1 && v == pow(base, floor_log(base, v)),
{
    if is_power(base, v) {
        let k = choose|k: nat| pow(base, k) == v;
        lemma_pow_positive(base, k);
        lemma_floor_log_of_power(base, k);
    }
}

/// The next power is a power of the base, is not below `v`, and no power of
/// the base lies between `v` and it.
pub proof fn lemma_next_power_is_least(base: int, v: int, k: nat)
    requires
        base >= 2,
    ensures
        is_power(base, next_power(base, v)),
        v <= next_power(base, v),
        v <= pow(base, k) ==> next_power(base, v) <= pow(base, k),
{
    let c = ceil_log(base, v);
    assert(pow(base, c) == next_power(base, v));
    lemma_pow_positive(base, k);
    if v <= 1 {
        lemma_pow0(base);
    } else {
        lemma_floor_log_bounds(base, v - 1);
        if v <= pow(base, k) {
            let j = floor_log(base, v - 1);
            lemma_pow_strictly_increases_converse(base as nat, j, k);
            lemma_pow_increases(base as nat, c, k);
        }
    }
}

/// Dividing by the base takes one off the logarithm: a positive number below
/// the base has logarithm 0 and quotient 0, any other has a positive
/// quotient whose logarithm is one less.
pub proof fn lemma_floor_log_step(base: int, v: int)
    requires
        base >= 2,
        v >= 1,
    ensures
        v < base ==> floor_log(base, v) == 0 && v / base == 0,
        v >= base ==> v / base >= 1 && floor_log(base, v) == 1 + floor_log(base, v / base),
{
    lemma_log_nonnegative(base, v);
    if v < base {
        reveal(log);
        assert(v / base == 0) by (nonlinear_arith)
            requires
                0 <= v < base,
        ;
    } else {
        lemma_log_s(base, v);
        assert(v / base >= 1) by (nonlinear_arith)
            requires
                base >= 2,
                v >= base,
        ;
        lemma_log_nonnegative(base, v / base);
    }
}

/// A number that fits in `width` bits has a logarithm below `width`,
/// whatever the base.
pub proof fn lemma_floor_log_below_width(base: int, v: int, width: nat)
    requires
        base >= 2,
        v < pow2(width),
    ensures
        floor_log(base, v) <= width,
        v >= 1 ==> floor_log(base, v) < width,
    decreases width,
{
    if v >= 1 {
        lemma_floor_log_step(base, v);
        if width == 0 {
            lemma2_to64();
        } else if v >= base {
            let q = v / base;
            lemma_pow2_unfold(width);
            let half = pow2((width - 1) as nat) as int;
            assert(q < half) by (nonlinear_arith)
                requires
                    base >= 2,
                    v >= 0,
                    q == v / base,
                    v < 2 * half,
            ;
            lemma_floor_log_below_width(base, q, (width - 1) as nat);
        }
    }
}

} // verus!
