use vstd::prelude::*;

use crate::kind::{fits, Kind};

verus! {

/// A primitive numeric type that can be a vector component.
///
/// Each value stands for an integer, `value`, of its type's kind. The arithmetic
/// methods are exact: their `requires` rule out results that the kind cannot hold.
pub trait Numerical: Copy + Sized {
    spec fn kind() -> Kind;

    spec fn value(self) -> int;

    proof fn lemma_value_fits(self)
        ensures
            Self::kind().is_integer(),
            fits(Self::kind(), self.value()),
    ;

    proof fn lemma_value_injective(self, other: Self)
        ensures
            self.value() == other.value() ==> self == other,
    ;

    fn zero() -> (r: Self)
        ensures
            r.value() == 0,
    ;

    fn plus(self, rhs: Self) -> (r: Self)
        requires
            fits(Self::kind(), self.value() + rhs.value()),
        ensures
            r.value() == self.value() + rhs.value(),
    ;

    fn minus(self, rhs: Self) -> (r: Self)
        requires
            fits(Self::kind(), self.value() - rhs.value()),
        ensures
            r.value() == self.value() - rhs.value(),
    ;

    fn times(self, rhs: Self) -> (r: Self)
        requires
            fits(Self::kind(), self.value() * rhs.value()),
        ensures
            r.value() == self.value() * rhs.value(),
    ;

    fn equals(self, rhs: Self) -> (r: bool)
        ensures
            r == (self.value() == rhs.value()),
    ;

    fn to_i128(self) -> (r: i128)
        requires
            fits(Kind::I128, self.value()),
        ensures
            r as int == self.value(),
    ;
}

impl Numerical for i8 {
    open spec fn kind() -> Kind {
        Kind::I8
    }

    open spec fn value(self) -> int {
        self as int
    }

    proof fn lemma_value_fits(self) {
    }

    proof fn lemma_value_injective(self, other: Self) {
    }

    fn zero() -> (r: Self) {
        0
    }

    fn plus(self, rhs: Self) -> (r: Self) {
        self + rhs
    }

    fn minus(self, rhs: Self) -> (r: Self) {
        self - rhs
    }

    fn times(self, rhs: Self) -> (r: Self) {
        self * rhs
    }

    fn equals(self, rhs: Self) -> (r: bool) {
        self == rhs
    }

    fn to_i128(self) -> (r: i128) {
        self as i128
    }
}

impl Numerical for i16 {
    open spec fn kind() -> Kind {
        Kind::I16
    }

    open spec fn value(self) -> int {
        self as int
    }

    proof fn lemma_value_fits(self) {
    }

    proof fn lemma_value_injective(self, other: Self) {
    }

    fn zero() -> (r: Self) {
        0
    }

    fn plus(self, rhs: Self) -> (r: Self) {
        self + rhs
    }

    fn minus(self, rhs: Self) -> (r: Self) {
        self - rhs
    }

    fn times(self, rhs: Self) -> (r: Self) {
        self * rhs
    }

    fn equals(self, rhs: Self) -> (r: bool) {
        self == rhs
    }

    fn to_i128(self) -> (r: i128) {
        self as i128
    }
}

impl Numerical for i32 {
    open spec fn kind() -> Kind {
        Kind::I32
    }

    open spec fn value(self) -> int {
        self as int
    }

    proof fn lemma_value_fits(self) {
    }

    proof fn lemma_value_injective(self, other: Self) {
    }

    fn zero() -> (r: Self) {
        0
    }

    fn plus(self, rhs: Self) -> (r: Self) {
        self + rhs
    }

    fn minus(self, rhs: Self) -> (r: Self) {
        self - rhs
    }

    fn times(self, rhs: Self) -> (r: Self) {
        self * rhs
    }

    fn equals(self, rhs: Self) -> (r: bool) {
        self == rhs
    }

    fn to_i128(self) -> (r: i128) {
        self as i128
    }
}

impl Numerical for i64 {
    open spec fn kind() -> Kind {
        Kind::I64
    }

    open spec fn value(self) -> int {
        self as int
    }

    proof fn lemma_value_fits(self) {
    }

    proof fn lemma_value_injective(self, other: Self) {
    }

    fn zero() -> (r: Self) {
        0
    }

    fn plus(self, rhs: Self) -> (r: Self) {
        self + rhs
    }

    fn minus(self, rhs: Self) -> (r: Self) {
        self - rhs
    }

    fn times(self, rhs: Self) -> (r: Self) {
        self * rhs
    }

    fn equals(self, rhs: Self) -> (r: bool) {
        self == rhs
    }

    fn to_i128(self) -> (r: i128) {
        self as i128
    }
}

impl Numerical for i128 {
    open spec fn kind() -> Kind {
        Kind::I128
    }

    open spec fn value(self) -> int {
        self as int
    }

    proof fn lemma_value_fits(self) {
    }

    proof fn lemma_value_injective(self, other: Self) {
    }

    fn zero() -> (r: Self) {
        0
    }

    fn plus(self, rhs: Self) -> (r: Self) {
        self + rhs
    }

    fn minus(self, rhs: Self) -> (r: Self) {
        self - rhs
    }

    fn times(self, rhs: Self) -> (r: Self) {
        self * rhs
    }

    fn equals(self, rhs: Self) -> (r: bool) {
        self == rhs
    }

    fn to_i128(self) -> (r: i128) {
        self as i128
    }
}

impl Numerical for u8 {
    open spec fn kind() -> Kind {
        Kind::U8
    }

    open spec fn value(self) -> int {
        self as int
    }

    proof fn lemma_value_fits(self) {
    }

    proof fn lemma_value_injective(self, other: Self) {
    }

    fn zero() -> (r: Self) {
        0
    }

    fn plus(self, rhs: Self) -> (r: Self) {
        self + rhs
    }

    fn minus(self, rhs: Self) -> (r: Self) {
        self - rhs
    }

    fn times(self, rhs: Self) -> (r: Self) {
        self * rhs
    }

    fn equals(self, rhs: Self) -> (r: bool) {
        self == rhs
    }

    fn to_i128(self) -> (r: i128) {
        self as i128
    }
}

impl Numerical for u16 {
    open spec fn kind() -> Kind {
        Kind::U16
    }

    open spec fn value(self) -> int {
        self as int
    }

    proof fn lemma_value_fits(self) {
    }

    proof fn lemma_value_injective(self, other: Self) {
    }

    fn zero() -> (r: Self) {
        0
    }

    fn plus(self, rhs: Self) -> (r: Self) {
        self + rhs
    }

    fn minus(self, rhs: Self) -> (r: Self) {
        self - rhs
    }

    fn times(self, rhs: Self) -> (r: Self) {
        self * rhs
    }

    fn equals(self, rhs: Self) -> (r: bool) {
        self == rhs
    }

    fn to_i128(self) -> (r: i128) {
        self as i128
    }
}

impl Numerical for u32 {
    open spec fn kind() -> Kind {
        Kind::U32
    }

    open spec fn value(self) -> int {
        self as int
    }

    proof fn lemma_value_fits(self) {
    }

    proof fn lemma_value_injective(self, other: Self) {
    }

    fn zero() -> (r: Self) {
        0
    }

    fn plus(self, rhs: Self) -> (r: Self) {
        self + rhs
    }

    fn minus(self, rhs: Self) -> (r: Self) {
        self - rhs
    }

    fn times(self, rhs: Self) -> (r: Self) {
        self * rhs
    }

    fn equals(self, rhs: Self) -> (r: bool) {
        self == rhs
    }

    fn to_i128(self) -> (r: i128) {
        self as i128
    }
}

impl Numerical for u64 {
    open spec fn kind() -> Kind {
        Kind::U64
    }

    open spec fn value(self) -> int {
        self as int
    }

    proof fn lemma_value_fits(self) {
    }

    proof fn lemma_value_injective(self, other: Self) {
    }

    fn zero() -> (r: Self) {
        0
    }

    fn plus(self, rhs: Self) -> (r: Self) {
        self + rhs
    }

    fn minus(self, rhs: Self) -> (r: Self) {
        self - rhs
    }

    fn times(self, rhs: Self) -> (r: Self) {
        self * rhs
    }

    fn equals(self, rhs: Self) -> (r: bool) {
        self == rhs
    }

    fn to_i128(self) -> (r: i128) {
        self as i128
    }
}

impl Numerical for u128 {
    open spec fn kind() -> Kind {
        Kind::U128
    }

    open spec fn value(self) -> int {
        self as int
    }

    proof fn lemma_value_fits(self) {
    }

    proof fn lemma_value_injective(self, other: Self) {
    }

    fn zero() -> (r: Self) {
        0
    }

    fn plus(self, rhs: Self) -> (r: Self) {
        self + rhs
    }

    fn minus(self, rhs: Self) -> (r: Self) {
        self - rhs
    }

    fn times(self, rhs: Self) -> (r: Self) {
        self * rhs
    }

    fn equals(self, rhs: Self) -> (r: bool) {
        self == rhs
    }

    fn to_i128(self) -> (r: i128) {
        self as i128
    }
}

} // verus!
