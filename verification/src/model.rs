//! The mathematical reading of an integer type: which integer a value stands
//! for, and which integers the type can hold.
use vstd::prelude::*;

verus! {

/// An integer type, seen through the mathematical integers.
pub trait Integral: Sized {
    /// The integer that this value stands for.
    spec fn int_value(&self) -> int;

    /// Whether some value of the type stands for `n`.
    spec fn in_range(n: int) -> bool;

    /// Every value stands for an integer that the type can hold.
    proof fn lemma_value_in_range(&self)
        ensures
            Self::in_range(self.int_value()),
    ;

    /// The integers that the type can hold have no gaps.
    proof fn lemma_range_is_interval(a: int, b: int, c: int)
        requires
            Self::in_range(a),
            Self::in_range(c),
            a <= b <= c,
        ensures
            Self::in_range(b),
    ;
}

impl Integral for u8 {
    open spec fn int_value(&self) -> int {
        *self as int
    }

    open spec fn in_range(n: int) -> bool {
        u8::MIN <= n <= u8::MAX
    }

    proof fn lemma_value_in_range(&self) {
    }

    proof fn lemma_range_is_interval(a: int, b: int, c: int) {
    }
}

impl Integral for u16 {
    open spec fn int_value(&self) -> int {
        *self as int
    }

    open spec fn in_range(n: int) -> bool {
        u16::MIN <= n <= u16::MAX
    }

    proof fn lemma_value_in_range(&self) {
    }

    proof fn lemma_range_is_interval(a: int, b: int, c: int) {
    }
}

impl Integral for u32 {
    open spec fn int_value(&self) -> int {
        *self as int
    }

    open spec fn in_range(n: int) -> bool {
        u32::MIN <= n <= u32::MAX
    }

    proof fn lemma_value_in_range(&self) {
    }

    proof fn lemma_range_is_interval(a: int, b: int, c: int) {
    }
}

impl Integral for u64 {
    open spec fn int_value(&self) -> int {
        *self as int
    }

    open spec fn in_range(n: int) -> bool {
        u64::MIN <= n <= u64::MAX
    }

    proof fn lemma_value_in_range(&self) {
    }

    proof fn lemma_range_is_interval(a: int, b: int, c: int) {
    }
}

impl Integral for u128 {
    open spec fn int_value(&self) -> int {
        *self as int
    }

    open spec fn in_range(n: int) -> bool {
        u128::MIN <= n <= u128::MAX
    }

    proof fn lemma_value_in_range(&self) {
    }

    proof fn lemma_range_is_interval(a: int, b: int, c: int) {
    }
}

impl Integral for usize {
    open spec fn int_value(&self) -> int {
        *self as int
    }

    open spec fn in_range(n: int) -> bool {
        usize::MIN <= n <= usize::MAX
    }

    proof fn lemma_value_in_range(&self) {
    }

    proof fn lemma_range_is_interval(a: int, b: int, c: int) {
    }
}

impl Integral for i8 {
    open spec fn int_value(&self) -> int {
        *self as int
    }

    open spec fn in_range(n: int) -> bool {
        i8::MIN <= n <= i8::MAX
    }

    proof fn lemma_value_in_range(&self) {
    }

    proof fn lemma_range_is_interval(a: int, b: int, c: int) {
    }
}

impl Integral for i16 {
    open spec fn int_value(&self) -> int {
        *self as int
    }

    open spec fn in_range(n: int) -> bool {
        i16::MIN <= n <= i16::MAX
    }

    proof fn lemma_value_in_range(&self) {
    }

    proof fn lemma_range_is_interval(a: int, b: int, c: int) {
    }
}

impl Integral for i32 {
    open spec fn int_value(&self) -> int {
        *self as int
    }

    open spec fn in_range(n: int) -> bool {
        i32::MIN <= n <= i32::MAX
    }

    proof fn lemma_value_in_range(&self) {
    }

    proof fn lemma_range_is_interval(a: int, b: int, c: int) {
    }
}

impl Integral for i64 {
    open spec fn int_value(&self) -> int {
        *self as int
    }

    open spec fn in_range(n: int) -> bool {
        i64::MIN <= n <= i64::MAX
    }

    proof fn lemma_value_in_range(&self) {
    }

    proof fn lemma_range_is_interval(a: int, b: int, c: int) {
    }
}

impl Integral for i128 {
    open spec fn int_value(&self) -> int {
        *self as int
    }

    open spec fn in_range(n: int) -> bool {
        i128::MIN <= n <= i128::MAX
    }

    proof fn lemma_value_in_range(&self) {
    }

    proof fn lemma_range_is_interval(a: int, b: int, c: int) {
    }
}

impl Integral for isize {
    open spec fn int_value(&self) -> int {
        *self as int
    }

    open spec fn in_range(n: int) -> bool {
        isize::MIN <= n <= isize::MAX
    }

    proof fn lemma_value_in_range(&self) {
    }

    proof fn lemma_range_is_interval(a: int, b: int, c: int) {
    }
}

} // verus!
