use vstd::prelude::*;

use crate::kind::{fits, promote_kind};
use crate::numerical::Numerical;

verus! {

/// The result type of arithmetic between `Self` and `U`, with the exact
/// conversions of both operand types into it.
///
/// Every pair of integer types has an impl, and each agrees with `promote_kind`.
/// A conversion is asked only for values that the result type holds: all of them,
/// but where a signed type meets `u128`, whose result `i128` is narrower.
pub trait Promote<U: Numerical>: Numerical {
    type Output: Numerical;

    proof fn lemma_output_kind()
        ensures
            promote_kind(Self::kind(), U::kind()) == Some(Self::Output::kind()),
    ;

    fn promote_lhs(self) -> (r: Self::Output)
        requires
            fits(Self::Output::kind(), self.value()),
        ensures
            r.value() == self.value(),
    ;

    fn promote_rhs(rhs: U) -> (r: Self::Output)
        requires
            fits(Self::Output::kind(), rhs.value()),
        ensures
            r.value() == rhs.value(),
    ;
}

impl Promote<i8> for i8 {
    type Output = i8;

    proof fn lemma_output_kind() {
    }

    fn promote_lhs(self) -> (r: i8) {
        self as i8
    }

    fn promote_rhs(rhs: i8) -> (r: i8) {
        rhs as i8
    }
}

impl Promote<i16> for i8 {
    type Output = i16;

    proof fn lemma_output_kind() {
    }

    fn promote_lhs(self) -> (r: i16) {
        self as i16
    }

    fn promote_rhs(rhs: i16) -> (r: i16) {
        rhs as i16
    }
}

impl Promote<i32> for i8 {
    type Output = i32;

    proof fn lemma_output_kind() {
    }

    fn promote_lhs(self) -> (r: i32) {
        self as i32
    }

    fn promote_rhs(rhs: i32) -> (r: i32) {
        rhs as i32
    }
}

impl Promote<i64> for i8 {
    type Output = i64;

    proof fn lemma_output_kind() {
    }

    fn promote_lhs(self) -> (r: i64) {
        self as i64
    }

    fn promote_rhs(rhs: i64) -> (r: i64) {
        rhs as i64
    }
}

impl Promote<i128> for i8 {
    type Output = i128;

    proof fn lemma_output_kind() {
    }

    fn promote_lhs(self) -> (r: i128) {
        self as i128
    }

    fn promote_rhs(rhs: i128) -> (r: i128) {
        rhs as i128
    }
}

impl Promote<u8> for i8 {
    type Output = i16;

    proof fn lemma_output_kind() {
    }

    fn promote_lhs(self) -> (r: i16) {
        self as i16
    }

    fn promote_rhs(rhs: u8) -> (r: i16) {
        rhs as i16
    }
}

impl Promote<u16> for i8 {
    type Output = i32;

    proof fn lemma_output_kind() {
    }

    fn promote_lhs(self) -> (r: i32) {
        self as i32
    }

    fn promote_rhs(rhs: u16) -> (r: i32) {
        rhs as i32
    }
}

impl Promote<u32> for i8 {
    type Output = i64;

    proof fn lemma_output_kind() {
    }

    fn promote_lhs(self) -> (r: i64) {
        self as i64
    }

    fn promote_rhs(rhs: u32) -> (r: i64) {
        rhs as i64
    }
}

impl Promote<u64> for i8 {
    type Output = i128;

    proof fn lemma_output_kind() {
    }

    fn promote_lhs(self) -> (r: i128) {
        self as i128
    }

    fn promote_rhs(rhs: u64) -> (r: i128) {
        rhs as i128
    }
}

impl Promote<u128> for i8 {
    type Output = i128;

    proof fn lemma_output_kind() {
    }

    fn promote_lhs(self) -> (r: i128) {
        self as i128
    }

    fn promote_rhs(rhs: u128) -> (r: i128) {
        rhs as i128
    }
}

impl Promote<i8> for i16 {
    type Output = i16;

    proof fn lemma_output_kind() {
    }

    fn promote_lhs(self) -> (r: i16) {
        self as i16
    }

    fn promote_rhs(rhs: i8) -> (r: i16) {
        rhs as i16
    }
}

impl Promote<i16> for i16 {
    type Output = i16;

    proof fn lemma_output_kind() {
    }

    fn promote_lhs(self) -> (r: i16) {
        self as i16
    }

    fn promote_rhs(rhs: i16) -> (r: i16) {
        rhs as i16
    }
}

impl Promote<i32> for i16 {
    type Output = i32;

    proof fn lemma_output_kind() {
    }

    fn promote_lhs(self) -> (r: i32) {
        self as i32
    }

    fn promote_rhs(rhs: i32) -> (r: i32) {
        rhs as i32
    }
}

impl Promote<i64> for i16 {
    type Output = i64;

    proof fn lemma_output_kind() {
    }

    fn promote_lhs(self) -> (r: i64) {
        self as i64
    }

    fn promote_rhs(rhs: i64) -> (r: i64) {
        rhs as i64
    }
}

impl Promote<i128> for i16 {
    type Output = i128;

    proof fn lemma_output_kind() {
    }

    fn promote_lhs(self) -> (r: i128) {
        self as i128
    }

    fn promote_rhs(rhs: i128) -> (r: i128) {
        rhs as i128
    }
}

impl Promote<u8> for i16 {
    type Output = i16;

    proof fn lemma_output_kind() {
    }

    fn promote_lhs(self) -> (r: i16) {
        self as i16
    }

    fn promote_rhs(rhs: u8) -> (r: i16) {
        rhs as i16
    }
}

impl Promote<u16> for i16 {
    type Output = i32;

    proof fn lemma_output_kind() {
    }

    fn promote_lhs(self) -> (r: i32) {
        self as i32
    }

    fn promote_rhs(rhs: u16) -> (r: i32) {
        rhs as i32
    }
}

impl Promote<u32> for i16 {
    type Output = i64;

    proof fn lemma_output_kind() {
    }

    fn promote_lhs(self) -> (r: i64) {
        self as i64
    }

    fn promote_rhs(rhs: u32) -> (r: i64) {
        rhs as i64
    }
}

impl Promote<u64> for i16 {
    type Output = i128;

    proof fn lemma_output_kind() {
    }

    fn promote_lhs(self) -> (r: i128) {
        self as i128
    }

    fn promote_rhs(rhs: u64) -> (r: i128) {
        rhs as i128
    }
}

impl Promote<u128> for i16 {
    type Output = i128;

    proof fn lemma_output_kind() {
    }

    fn promote_lhs(self) -> (r: i128) {
        self as i128
    }

    fn promote_rhs(rhs: u128) -> (r: i128) {
        rhs as i128
    }
}

impl Promote<i8> for i32 {
    type Output = i32;

    proof fn lemma_output_kind() {
    }

    fn promote_lhs(self) -> (r: i32) {
        self as i32
    }

    fn promote_rhs(rhs: i8) -> (r: i32) {
        rhs as i32
    }
}

impl Promote<i16> for i32 {
    type Output = i32;

    proof fn lemma_output_kind() {
    }

    fn promote_lhs(self) -> (r: i32) {
        self as i32
    }

    fn promote_rhs(rhs: i16) -> (r: i32) {
        rhs as i32
    }
}

impl Promote<i32> for i32 {
    type Output = i32;

    proof fn lemma_output_kind() {
    }

    fn promote_lhs(self) -> (r: i32) {
        self as i32
    }

    fn promote_rhs(rhs: i32) -> (r: i32) {
        rhs as i32
    }
}

impl Promote<i64> for i32 {
    type Output = i64;

    proof fn lemma_output_kind() {
    }

    fn promote_lhs(self) -> (r: i64) {
        self as i64
    }

    fn promote_rhs(rhs: i64) -> (r: i64) {
        rhs as i64
    }
}

impl Promote<i128> for i32 {
    type Output = i128;

    proof fn lemma_output_kind() {
    }

    fn promote_lhs(self) -> (r: i128) {
        self as i128
    }

    fn promote_rhs(rhs: i128) -> (r: i128) {
        rhs as i128
    }
}

impl Promote<u8> for i32 {
    type Output = i32;

    proof fn lemma_output_kind() {
    }

    fn promote_lhs(self) -> (r: i32) {
        self as i32
    }

    fn promote_rhs(rhs: u8) -> (r: i32) {
        rhs as i32
    }
}

impl Promote<u16> for i32 {
    type Output = i32;

    proof fn lemma_output_kind() {
    }

    fn promote_lhs(self) -> (r: i32) {
        self as i32
    }

    fn promote_rhs(rhs: u16) -> (r: i32) {
        rhs as i32
    }
}

impl Promote<u32> for i32 {
    type Output = i64;

    proof fn lemma_output_kind() {
    }

    fn promote_lhs(self) -> (r: i64) {
        self as i64
    }

    fn promote_rhs(rhs: u32) -> (r: i64) {
        rhs as i64
    }
}

impl Promote<u64> for i32 {
    type Output = i128;

    proof fn lemma_output_kind() {
    }

    fn promote_lhs(self) -> (r: i128) {
        self as i128
    }

    fn promote_rhs(rhs: u64) -> (r: i128) {
        rhs as i128
    }
}

impl Promote<u128> for i32 {
    type Output = i128;

    proof fn lemma_output_kind() {
    }

    fn promote_lhs(self) -> (r: i128) {
        self as i128
    }

    fn promote_rhs(rhs: u128) -> (r: i128) {
        rhs as i128
    }
}

impl Promote<i8> for i64 {
    type Output = i64;

    proof fn lemma_output_kind() {
    }

    fn promote_lhs(self) -> (r: i64) {
        self as i64
    }

    fn promote_rhs(rhs: i8) -> (r: i64) {
        rhs as i64
    }
}

impl Promote<i16> for i64 {
    type Output = i64;

    proof fn lemma_output_kind() {
    }

    fn promote_lhs(self) -> (r: i64) {
        self as i64
    }

    fn promote_rhs(rhs: i16) -> (r: i64) {
        rhs as i64
    }
}

impl Promote<i32> for i64 {
    type Output = i64;

    proof fn lemma_output_kind() {
    }

    fn promote_lhs(self) -> (r: i64) {
        self as i64
    }

    fn promote_rhs(rhs: i32) -> (r: i64) {
        rhs as i64
    }
}

impl Promote<i64> for i64 {
    type Output = i64;

    proof fn lemma_output_kind() {
    }

    fn promote_lhs(self) -> (r: i64) {
        self as i64
    }

    fn promote_rhs(rhs: i64) -> (r: i64) {
        rhs as i64
    }
}

impl Promote<i128> for i64 {
    type Output = i128;

    proof fn lemma_output_kind() {
    }

    fn promote_lhs(self) -> (r: i128) {
        self as i128
    }

    fn promote_rhs(rhs: i128) -> (r: i128) {
        rhs as i128
    }
}

impl Promote<u8> for i64 {
    type Output = i64;

    proof fn lemma_output_kind() {
    }

    fn promote_lhs(self) -> (r: i64) {
        self as i64
    }

    fn promote_rhs(rhs: u8) -> (r: i64) {
        rhs as i64
    }
}

impl Promote<u16> for i64 {
    type Output = i64;

    proof fn lemma_output_kind() {
    }

    fn promote_lhs(self) -> (r: i64) {
        self as i64
    }

    fn promote_rhs(rhs: u16) -> (r: i64) {
        rhs as i64
    }
}

impl Promote<u32> for i64 {
    type Output = i64;

    proof fn lemma_output_kind() {
    }

    fn promote_lhs(self) -> (r: i64) {
        self as i64
    }

    fn promote_rhs(rhs: u32) -> (r: i64) {
        rhs as i64
    }
}

impl Promote<u64> for i64 {
    type Output = i128;

    proof fn lemma_output_kind() {
    }

    fn promote_lhs(self) -> (r: i128) {
        self as i128
    }

    fn promote_rhs(rhs: u64) -> (r: i128) {
        rhs as i128
    }
}

impl Promote<u128> for i64 {
    type Output = i128;

    proof fn lemma_output_kind() {
    }

    fn promote_lhs(self) -> (r: i128) {
        self as i128
    }

    fn promote_rhs(rhs: u128) -> (r: i128) {
        rhs as i128
    }
}

impl Promote<i8> for i128 {
    type Output = i128;

    proof fn lemma_output_kind() {
    }

    fn promote_lhs(self) -> (r: i128) {
        self as i128
    }

    fn promote_rhs(rhs: i8) -> (r: i128) {
        rhs as i128
    }
}

impl Promote<i16> for i128 {
    type Output = i128;

    proof fn lemma_output_kind() {
    }

    fn promote_lhs(self) -> (r: i128) {
        self as i128
    }

    fn promote_rhs(rhs: i16) -> (r: i128) {
        rhs as i128
    }
}

impl Promote<i32> for i128 {
    type Output = i128;

    proof fn lemma_output_kind() {
    }

    fn promote_lhs(self) -> (r: i128) {
        self as i128
    }

    fn promote_rhs(rhs: i32) -> (r: i128) {
        rhs as i128
    }
}

impl Promote<i64> for i128 {
    type Output = i128;

    proof fn lemma_output_kind() {
    }

    fn promote_lhs(self) -> (r: i128) {
        self as i128
    }

    fn promote_rhs(rhs: i64) -> (r: i128) {
        rhs as i128
    }
}

impl Promote<i128> for i128 {
    type Output = i128;

    proof fn lemma_output_kind() {
    }

    fn promote_lhs(self) -> (r: i128) {
        self as i128
    }

    fn promote_rhs(rhs: i128) -> (r: i128) {
        rhs as i128
    }
}

impl Promote<u8> for i128 {
    type Output = i128;

    proof fn lemma_output_kind() {
    }

    fn promote_lhs(self) -> (r: i128) {
        self as i128
    }

    fn promote_rhs(rhs: u8) -> (r: i128) {
        rhs as i128
    }
}

impl Promote<u16> for i128 {
    type Output = i128;

    proof fn lemma_output_kind() {
    }

    fn promote_lhs(self) -> (r: i128) {
        self as i128
    }

    fn promote_rhs(rhs: u16) -> (r: i128) {
        rhs as i128
    }
}

impl Promote<u32> for i128 {
    type Output = i128;

    proof fn lemma_output_kind() {
    }

    fn promote_lhs(self) -> (r: i128) {
        self as i128
    }

    fn promote_rhs(rhs: u32) -> (r: i128) {
        rhs as i128
    }
}

impl Promote<u64> for i128 {
    type Output = i128;

    proof fn lemma_output_kind() {
    }

    fn promote_lhs(self) -> (r: i128) {
        self as i128
    }

    fn promote_rhs(rhs: u64) -> (r: i128) {
        rhs as i128
    }
}

impl Promote<u128> for i128 {
    type Output = i128;

    proof fn lemma_output_kind() {
    }

    fn promote_lhs(self) -> (r: i128) {
        self as i128
    }

    fn promote_rhs(rhs: u128) -> (r: i128) {
        rhs as i128
    }
}

impl Promote<i8> for u8 {
    type Output = i16;

    proof fn lemma_output_kind() {
    }

    fn promote_lhs(self) -> (r: i16) {
        self as i16
    }

    fn promote_rhs(rhs: i8) -> (r: i16) {
        rhs as i16
    }
}

impl Promote<i16> for u8 {
    type Output = i16;

    proof fn lemma_output_kind() {
    }

    fn promote_lhs(self) -> (r: i16) {
        self as i16
    }

    fn promote_rhs(rhs: i16) -> (r: i16) {
        rhs as i16
    }
}

impl Promote<i32> for u8 {
    type Output = i32;

    proof fn lemma_output_kind() {
    }

    fn promote_lhs(self) -> (r: i32) {
        self as i32
    }

    fn promote_rhs(rhs: i32) -> (r: i32) {
        rhs as i32
    }
}

impl Promote<i64> for u8 {
    type Output = i64;

    proof fn lemma_output_kind() {
    }

    fn promote_lhs(self) -> (r: i64) {
        self as i64
    }

    fn promote_rhs(rhs: i64) -> (r: i64) {
        rhs as i64
    }
}

impl Promote<i128> for u8 {
    type Output = i128;

    proof fn lemma_output_kind() {
    }

    fn promote_lhs(self) -> (r: i128) {
        self as i128
    }

    fn promote_rhs(rhs: i128) -> (r: i128) {
        rhs as i128
    }
}

impl Promote<u8> for u8 {
    type Output = u8;

    proof fn lemma_output_kind() {
    }

    fn promote_lhs(self) -> (r: u8) {
        self as u8
    }

    fn promote_rhs(rhs: u8) -> (r: u8) {
        rhs as u8
    }
}

impl Promote<u16> for u8 {
    type Output = u16;

    proof fn lemma_output_kind() {
    }

    fn promote_lhs(self) -> (r: u16) {
        self as u16
    }

    fn promote_rhs(rhs: u16) -> (r: u16) {
        rhs as u16
    }
}

impl Promote<u32> for u8 {
    type Output = u32;

    proof fn lemma_output_kind() {
    }

    fn promote_lhs(self) -> (r: u32) {
        self as u32
    }

    fn promote_rhs(rhs: u32) -> (r: u32) {
        rhs as u32
    }
}

impl Promote<u64> for u8 {
    type Output = u64;

    proof fn lemma_output_kind() {
    }

    fn promote_lhs(self) -> (r: u64) {
        self as u64
    }

    fn promote_rhs(rhs: u64) -> (r: u64) {
        rhs as u64
    }
}

impl Promote<u128> for u8 {
    type Output = u128;

    proof fn lemma_output_kind() {
    }

    fn promote_lhs(self) -> (r: u128) {
        self as u128
    }

    fn promote_rhs(rhs: u128) -> (r: u128) {
        rhs as u128
    }
}

impl Promote<i8> for u16 {
    type Output = i32;

    proof fn lemma_output_kind() {
    }

    fn promote_lhs(self) -> (r: i32) {
        self as i32
    }

    fn promote_rhs(rhs: i8) -> (r: i32) {
        rhs as i32
    }
}

impl Promote<i16> for u16 {
    type Output = i32;

    proof fn lemma_output_kind() {
    }

    fn promote_lhs(self) -> (r: i32) {
        self as i32
    }

    fn promote_rhs(rhs: i16) -> (r: i32) {
        rhs as i32
    }
}

impl Promote<i32> for u16 {
    type Output = i32;

    proof fn lemma_output_kind() {
    }

    fn promote_lhs(self) -> (r: i32) {
        self as i32
    }

    fn promote_rhs(rhs: i32) -> (r: i32) {
        rhs as i32
    }
}

impl Promote<i64> for u16 {
    type Output = i64;

    proof fn lemma_output_kind() {
    }

    fn promote_lhs(self) -> (r: i64) {
        self as i64
    }

    fn promote_rhs(rhs: i64) -> (r: i64) {
        rhs as i64
    }
}

impl Promote<i128> for u16 {
    type Output = i128;

    proof fn lemma_output_kind() {
    }

    fn promote_lhs(self) -> (r: i128) {
        self as i128
    }

    fn promote_rhs(rhs: i128) -> (r: i128) {
        rhs as i128
    }
}

impl Promote<u8> for u16 {
    type Output = u16;

    proof fn lemma_output_kind() {
    }

    fn promote_lhs(self) -> (r: u16) {
        self as u16
    }

    fn promote_rhs(rhs: u8) -> (r: u16) {
        rhs as u16
    }
}

impl Promote<u16> for u16 {
    type Output = u16;

    proof fn lemma_output_kind() {
    }

    fn promote_lhs(self) -> (r: u16) {
        self as u16
    }

    fn promote_rhs(rhs: u16) -> (r: u16) {
        rhs as u16
    }
}

impl Promote<u32> for u16 {
    type Output = u32;

    proof fn lemma_output_kind() {
    }

    fn promote_lhs(self) -> (r: u32) {
        self as u32
    }

    fn promote_rhs(rhs: u32) -> (r: u32) {
        rhs as u32
    }
}

impl Promote<u64> for u16 {
    type Output = u64;

    proof fn lemma_output_kind() {
    }

    fn promote_lhs(self) -> (r: u64) {
        self as u64
    }

    fn promote_rhs(rhs: u64) -> (r: u64) {
        rhs as u64
    }
}

impl Promote<u128> for u16 {
    type Output = u128;

    proof fn lemma_output_kind() {
    }

    fn promote_lhs(self) -> (r: u128) {
        self as u128
    }

    fn promote_rhs(rhs: u128) -> (r: u128) {
        rhs as u128
    }
}

impl Promote<i8> for u32 {
    type Output = i64;

    proof fn lemma_output_kind() {
    }

    fn promote_lhs(self) -> (r: i64) {
        self as i64
    }

    fn promote_rhs(rhs: i8) -> (r: i64) {
        rhs as i64
    }
}

impl Promote<i16> for u32 {
    type Output = i64;

    proof fn lemma_output_kind() {
    }

    fn promote_lhs(self) -> (r: i64) {
        self as i64
    }

    fn promote_rhs(rhs: i16) -> (r: i64) {
        rhs as i64
    }
}

impl Promote<i32> for u32 {
    type Output = i64;

    proof fn lemma_output_kind() {
    }

    fn promote_lhs(self) -> (r: i64) {
        self as i64
    }

    fn promote_rhs(rhs: i32) -> (r: i64) {
        rhs as i64
    }
}

impl Promote<i64> for u32 {
    type Output = i64;

    proof fn lemma_output_kind() {
    }

    fn promote_lhs(self) -> (r: i64) {
        self as i64
    }

    fn promote_rhs(rhs: i64) -> (r: i64) {
        rhs as i64
    }
}

impl Promote<i128> for u32 {
    type Output = i128;

    proof fn lemma_output_kind() {
    }

    fn promote_lhs(self) -> (r: i128) {
        self as i128
    }

    fn promote_rhs(rhs: i128) -> (r: i128) {
        rhs as i128
    }
}

impl Promote<u8> for u32 {
    type Output = u32;

    proof fn lemma_output_kind() {
    }

    fn promote_lhs(self) -> (r: u32) {
        self as u32
    }

    fn promote_rhs(rhs: u8) -> (r: u32) {
        rhs as u32
    }
}

impl Promote<u16> for u32 {
    type Output = u32;

    proof fn lemma_output_kind() {
    }

    fn promote_lhs(self) -> (r: u32) {
        self as u32
    }

    fn promote_rhs(rhs: u16) -> (r: u32) {
        rhs as u32
    }
}

impl Promote<u32> for u32 {
    type Output = u32;

    proof fn lemma_output_kind() {
    }

    fn promote_lhs(self) -> (r: u32) {
        self as u32
    }

    fn promote_rhs(rhs: u32) -> (r: u32) {
        rhs as u32
    }
}

impl Promote<u64> for u32 {
    type Output = u64;

    proof fn lemma_output_kind() {
    }

    fn promote_lhs(self) -> (r: u64) {
        self as u64
    }

    fn promote_rhs(rhs: u64) -> (r: u64) {
        rhs as u64
    }
}

impl Promote<u128> for u32 {
    type Output = u128;

    proof fn lemma_output_kind() {
    }

    fn promote_lhs(self) -> (r: u128) {
        self as u128
    }

    fn promote_rhs(rhs: u128) -> (r: u128) {
        rhs as u128
    }
}

impl Promote<i8> for u64 {
    type Output = i128;

    proof fn lemma_output_kind() {
    }

    fn promote_lhs(self) -> (r: i128) {
        self as i128
    }

    fn promote_rhs(rhs: i8) -> (r: i128) {
        rhs as i128
    }
}

impl Promote<i16> for u64 {
    type Output = i128;

    proof fn lemma_output_kind() {
    }

    fn promote_lhs(self) -> (r: i128) {
        self as i128
    }

    fn promote_rhs(rhs: i16) -> (r: i128) {
        rhs as i128
    }
}

impl Promote<i32> for u64 {
    type Output = i128;

    proof fn lemma_output_kind() {
    }

    fn promote_lhs(self) -> (r: i128) {
        self as i128
    }

    fn promote_rhs(rhs: i32) -> (r: i128) {
        rhs as i128
    }
}

impl Promote<i64> for u64 {
    type Output = i128;

    proof fn lemma_output_kind() {
    }

    fn promote_lhs(self) -> (r: i128) {
        self as i128
    }

    fn promote_rhs(rhs: i64) -> (r: i128) {
        rhs as i128
    }
}

impl Promote<i128> for u64 {
    type Output = i128;

    proof fn lemma_output_kind() {
    }

    fn promote_lhs(self) -> (r: i128) {
        self as i128
    }

    fn promote_rhs(rhs: i128) -> (r: i128) {
        rhs as i128
    }
}

impl Promote<u8> for u64 {
    type Output = u64;

    proof fn lemma_output_kind() {
    }

    fn promote_lhs(self) -> (r: u64) {
        self as u64
    }

    fn promote_rhs(rhs: u8) -> (r: u64) {
        rhs as u64
    }
}

impl Promote<u16> for u64 {
    type Output = u64;

    proof fn lemma_output_kind() {
    }

    fn promote_lhs(self) -> (r: u64) {
        self as u64
    }

    fn promote_rhs(rhs: u16) -> (r: u64) {
        rhs as u64
    }
}

impl Promote<u32> for u64 {
    type Output = u64;

    proof fn lemma_output_kind() {
    }

    fn promote_lhs(self) -> (r: u64) {
        self as u64
    }

    fn promote_rhs(rhs: u32) -> (r: u64) {
        rhs as u64
    }
}

impl Promote<u64> for u64 {
    type Output = u64;

    proof fn lemma_output_kind() {
    }

    fn promote_lhs(self) -> (r: u64) {
        self as u64
    }

    fn promote_rhs(rhs: u64) -> (r: u64) {
        rhs as u64
    }
}

impl Promote<u128> for u64 {
    type Output = u128;

    proof fn lemma_output_kind() {
    }

    fn promote_lhs(self) -> (r: u128) {
        self as u128
    }

    fn promote_rhs(rhs: u128) -> (r: u128) {
        rhs as u128
    }
}

impl Promote<i8> for u128 {
    type Output = i128;

    proof fn lemma_output_kind() {
    }

    fn promote_lhs(self) -> (r: i128) {
        self as i128
    }

    fn promote_rhs(rhs: i8) -> (r: i128) {
        rhs as i128
    }
}

impl Promote<i16> for u128 {
    type Output = i128;

    proof fn lemma_output_kind() {
    }

    fn promote_lhs(self) -> (r: i128) {
        self as i128
    }

    fn promote_rhs(rhs: i16) -> (r: i128) {
        rhs as i128
    }
}

impl Promote<i32> for u128 {
    type Output = i128;

    proof fn lemma_output_kind() {
    }

    fn promote_lhs(self) -> (r: i128) {
        self as i128
    }

    fn promote_rhs(rhs: i32) -> (r: i128) {
        rhs as i128
    }
}

impl Promote<i64> for u128 {
    type Output = i128;

    proof fn lemma_output_kind() {
    }

    fn promote_lhs(self) -> (r: i128) {
        self as i128
    }

    fn promote_rhs(rhs: i64) -> (r: i128) {
        rhs as i128
    }
}

impl Promote<i128> for u128 {
    type Output = i128;

    proof fn lemma_output_kind() {
    }

    fn promote_lhs(self) -> (r: i128) {
        self as i128
    }

    fn promote_rhs(rhs: i128) -> (r: i128) {
        rhs as i128
    }
}

impl Promote<u8> for u128 {
    type Output = u128;

    proof fn lemma_output_kind() {
    }

    fn promote_lhs(self) -> (r: u128) {
        self as u128
    }

    fn promote_rhs(rhs: u8) -> (r: u128) {
        rhs as u128
    }
}

impl Promote<u16> for u128 {
    type Output = u128;

    proof fn lemma_output_kind() {
    }

    fn promote_lhs(self) -> (r: u128) {
        self as u128
    }

    fn promote_rhs(rhs: u16) -> (r: u128) {
        rhs as u128
    }
}

impl Promote<u32> for u128 {
    type Output = u128;

    proof fn lemma_output_kind() {
    }

    fn promote_lhs(self) -> (r: u128) {
        self as u128
    }

    fn promote_rhs(rhs: u32) -> (r: u128) {
        rhs as u128
    }
}

impl Promote<u64> for u128 {
    type Output = u128;

    proof fn lemma_output_kind() {
    }

    fn promote_lhs(self) -> (r: u128) {
        self as u128
    }

    fn promote_rhs(rhs: u64) -> (r: u128) {
        rhs as u128
    }
}

impl Promote<u128> for u128 {
    type Output = u128;

    proof fn lemma_output_kind() {
    }

    fn promote_lhs(self) -> (r: u128) {
        self as u128
    }

    fn promote_rhs(rhs: u128) -> (r: u128) {
        rhs as u128
    }
}

} // verus!

verus! {

/// Both orders of two component types give a result type of the same kind.
pub proof fn lemma_promoted_kind_symmetric<T: Promote<U>, U: Promote<T>>()
    ensures
        <T as Promote<U>>::Output::kind() == <U as Promote<T>>::Output::kind(),
{
    <T as Promote<U>>::lemma_output_kind();
    <U as Promote<T>>::lemma_output_kind();
    crate::kind::lemma_promote_symmetric(T::kind(), U::kind());
}

} // verus!
