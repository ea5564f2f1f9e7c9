use vstd::prelude::*;

verus! {

/// The closed set of primitive numeric kinds a vector component can have.
#[derive(Debug, Clone, Copy, PartialEq, Eq, Structural)]
pub enum Kind {
    I8,
    I16,
    I32,
    I64,
    I128,
    U8,
    U16,
    U32,
    U64,
    U128,
    F32,
    F64,
}

impl Kind {
    pub open spec fn is_signed(self) -> bool {
        self is I8 || self is I16 || self is I32 || self is I64 || self is I128
    }

    pub open spec fn is_unsigned(self) -> bool {
        self is U8 || self is U16 || self is U32 || self is U64 || self is U128
    }

    pub open spec fn is_float(self) -> bool {
        self is F32 || self is F64
    }

    pub open spec fn is_integer(self) -> bool {
        self.is_signed() || self.is_unsigned()
    }

    /// Width of the representation in bits.
    pub open spec fn width(self) -> nat {
        match self {
            Kind::I8 | Kind::U8 => 8,
            Kind::I16 | Kind::U16 => 16,
            Kind::I32 | Kind::U32 | Kind::F32 => 32,
            Kind::I64 | Kind::U64 | Kind::F64 => 64,
            Kind::I128 | Kind::U128 => 128,
        }
    }

    /// The kind that results from combining `self` with `other`, or `None` where
    /// the two kinds cannot be combined.
    pub fn promote(self, other: Kind) -> (r: Option<Kind>)
        ensures
            r == promote_kind(self, other),
    {
        match (self, other) {
            (Kind::I8, Kind::I8) => Some(Kind::I8),
            (Kind::I8, Kind::I16) => Some(Kind::I16),
            (Kind::I8, Kind::I32) => Some(Kind::I32),
            (Kind::I8, Kind::I64) => Some(Kind::I64),
            (Kind::I8, Kind::I128) => Some(Kind::I128),
            (Kind::I8, Kind::U8) => Some(Kind::I16),
            (Kind::I8, Kind::U16) => Some(Kind::I32),
            (Kind::I8, Kind::U32) => Some(Kind::I64),
            (Kind::I8, Kind::U64) => Some(Kind::I128),
            (Kind::I8, Kind::U128) => Some(Kind::I128),
            (Kind::I8, Kind::F32) => Some(Kind::F32),
            (Kind::I8, Kind::F64) => Some(Kind::F64),
            (Kind::I16, Kind::I8) => Some(Kind::I16),
            (Kind::I16, Kind::I16) => Some(Kind::I16),
            (Kind::I16, Kind::I32) => Some(Kind::I32),
            (Kind::I16, Kind::I64) => Some(Kind::I64),
            (Kind::I16, Kind::I128) => Some(Kind::I128),
            (Kind::I16, Kind::U8) => Some(Kind::I16),
            (Kind::I16, Kind::U16) => Some(Kind::I32),
            (Kind::I16, Kind::U32) => Some(Kind::I64),
            (Kind::I16, Kind::U64) => Some(Kind::I128),
            (Kind::I16, Kind::U128) => Some(Kind::I128),
            (Kind::I16, Kind::F32) => Some(Kind::F32),
            (Kind::I16, Kind::F64) => Some(Kind::F64),
            (Kind::I32, Kind::I8) => Some(Kind::I32),
            (Kind::I32, Kind::I16) => Some(Kind::I32),
            (Kind::I32, Kind::I32) => Some(Kind::I32),
            (Kind::I32, Kind::I64) => Some(Kind::I64),
            (Kind::I32, Kind::I128) => Some(Kind::I128),
            (Kind::I32, Kind::U8) => Some(Kind::I32),
            (Kind::I32, Kind::U16) => Some(Kind::I32),
            (Kind::I32, Kind::U32) => Some(Kind::I64),
            (Kind::I32, Kind::U64) => Some(Kind::I128),
            (Kind::I32, Kind::U128) => Some(Kind::I128),
            (Kind::I32, Kind::F32) => Some(Kind::F32),
            (Kind::I32, Kind::F64) => Some(Kind::F64),
            (Kind::I64, Kind::I8) => Some(Kind::I64),
            (Kind::I64, Kind::I16) => Some(Kind::I64),
            (Kind::I64, Kind::I32) => Some(Kind::I64),
            (Kind::I64, Kind::I64) => Some(Kind::I64),
            (Kind::I64, Kind::I128) => Some(Kind::I128),
            (Kind::I64, Kind::U8) => Some(Kind::I64),
            (Kind::I64, Kind::U16) => Some(Kind::I64),
            (Kind::I64, Kind::U32) => Some(Kind::I64),
            (Kind::I64, Kind::U64) => Some(Kind::I128),
            (Kind::I64, Kind::U128) => Some(Kind::I128),
            (Kind::I64, Kind::F32) => Some(Kind::F64),
            (Kind::I64, Kind::F64) => Some(Kind::F64),
            (Kind::I128, Kind::I8) => Some(Kind::I128),
            (Kind::I128, Kind::I16) => Some(Kind::I128),
            (Kind::I128, Kind::I32) => Some(Kind::I128),
            (Kind::I128, Kind::I64) => Some(Kind::I128),
            (Kind::I128, Kind::I128) => Some(Kind::I128),
            (Kind::I128, Kind::U8) => Some(Kind::I128),
            (Kind::I128, Kind::U16) => Some(Kind::I128),
            (Kind::I128, Kind::U32) => Some(Kind::I128),
            (Kind::I128, Kind::U64) => Some(Kind::I128),
            (Kind::I128, Kind::U128) => Some(Kind::I128),
            (Kind::I128, Kind::F32) => None,
            (Kind::I128, Kind::F64) => None,
            (Kind::U8, Kind::I8) => Some(Kind::I16),
            (Kind::U8, Kind::I16) => Some(Kind::I16),
            (Kind::U8, Kind::I32) => Some(Kind::I32),
            (Kind::U8, Kind::I64) => Some(Kind::I64),
            (Kind::U8, Kind::I128) => Some(Kind::I128),
            (Kind::U8, Kind::U8) => Some(Kind::U8),
            (Kind::U8, Kind::U16) => Some(Kind::U16),
            (Kind::U8, Kind::U32) => Some(Kind::U32),
            (Kind::U8, Kind::U64) => Some(Kind::U64),
            (Kind::U8, Kind::U128) => Some(Kind::U128),
            (Kind::U8, Kind::F32) => Some(Kind::F32),
            (Kind::U8, Kind::F64) => Some(Kind::F64),
            (Kind::U16, Kind::I8) => Some(Kind::I32),
            (Kind::U16, Kind::I16) => Some(Kind::I32),
            (Kind::U16, Kind::I32) => Some(Kind::I32),
            (Kind::U16, Kind::I64) => Some(Kind::I64),
            (Kind::U16, Kind::I128) => Some(Kind::I128),
            (Kind::U16, Kind::U8) => Some(Kind::U16),
            (Kind::U16, Kind::U16) => Some(Kind::U16),
            (Kind::U16, Kind::U32) => Some(Kind::U32),
            (Kind::U16, Kind::U64) => Some(Kind::U64),
            (Kind::U16, Kind::U128) => Some(Kind::U128),
            (Kind::U16, Kind::F32) => Some(Kind::F32),
            (Kind::U16, Kind::F64) => Some(Kind::F64),
            (Kind::U32, Kind::I8) => Some(Kind::I64),
            (Kind::U32, Kind::I16) => Some(Kind::I64),
            (Kind::U32, Kind::I32) => Some(Kind::I64),
            (Kind::U32, Kind::I64) => Some(Kind::I64),
            (Kind::U32, Kind::I128) => Some(Kind::I128),
            (Kind::U32, Kind::U8) => Some(Kind::U32),
            (Kind::U32, Kind::U16) => Some(Kind::U32),
            (Kind::U32, Kind::U32) => Some(Kind::U32),
            (Kind::U32, Kind::U64) => Some(Kind::U64),
            (Kind::U32, Kind::U128) => Some(Kind::U128),
            (Kind::U32, Kind::F32) => Some(Kind::F32),
            (Kind::U32, Kind::F64) => Some(Kind::F64),
            (Kind::U64, Kind::I8) => Some(Kind::I128),
            (Kind::U64, Kind::I16) => Some(Kind::I128),
            (Kind::U64, Kind::I32) => Some(Kind::I128),
            (Kind::U64, Kind::I64) => Some(Kind::I128),
            (Kind::U64, Kind::I128) => Some(Kind::I128),
            (Kind::U64, Kind::U8) => Some(Kind::U64),
            (Kind::U64, Kind::U16) => Some(Kind::U64),
            (Kind::U64, Kind::U32) => Some(Kind::U64),
            (Kind::U64, Kind::U64) => Some(Kind::U64),
            (Kind::U64, Kind::U128) => Some(Kind::U128),
            (Kind::U64, Kind::F32) => Some(Kind::F64),
            (Kind::U64, Kind::F64) => Some(Kind::F64),
            (Kind::U128, Kind::I8) => Some(Kind::I128),
            (Kind::U128, Kind::I16) => Some(Kind::I128),
            (Kind::U128, Kind::I32) => Some(Kind::I128),
            (Kind::U128, Kind::I64) => Some(Kind::I128),
            (Kind::U128, Kind::I128) => Some(Kind::I128),
            (Kind::U128, Kind::U8) => Some(Kind::U128),
            (Kind::U128, Kind::U16) => Some(Kind::U128),
            (Kind::U128, Kind::U32) => Some(Kind::U128),
            (Kind::U128, Kind::U64) => Some(Kind::U128),
            (Kind::U128, Kind::U128) => Some(Kind::U128),
            (Kind::U128, Kind::F32) => None,
            (Kind::U128, Kind::F64) => None,
            (Kind::F32, Kind::I8) => Some(Kind::F32),
            (Kind::F32, Kind::I16) => Some(Kind::F32),
            (Kind::F32, Kind::I32) => Some(Kind::F32),
            (Kind::F32, Kind::I64) => Some(Kind::F64),
            (Kind::F32, Kind::I128) => None,
            (Kind::F32, Kind::U8) => Some(Kind::F32),
            (Kind::F32, Kind::U16) => Some(Kind::F32),
            (Kind::F32, Kind::U32) => Some(Kind::F32),
            (Kind::F32, Kind::U64) => Some(Kind::F64),
            (Kind::F32, Kind::U128) => None,
            (Kind::F32, Kind::F32) => Some(Kind::F32),
            (Kind::F32, Kind::F64) => Some(Kind::F64),
            (Kind::F64, Kind::I8) => Some(Kind::F64),
            (Kind::F64, Kind::I16) => Some(Kind::F64),
            (Kind::F64, Kind::I32) => Some(Kind::F64),
            (Kind::F64, Kind::I64) => Some(Kind::F64),
            (Kind::F64, Kind::I128) => None,
            (Kind::F64, Kind::U8) => Some(Kind::F64),
            (Kind::F64, Kind::U16) => Some(Kind::F64),
            (Kind::F64, Kind::U32) => Some(Kind::F64),
            (Kind::F64, Kind::U64) => Some(Kind::F64),
            (Kind::F64, Kind::U128) => None,
            (Kind::F64, Kind::F32) => Some(Kind::F64),
            (Kind::F64, Kind::F64) => Some(Kind::F64),
        }
    }
}

pub open spec fn signed_of(width: nat) -> Kind {
    if width <= 8 {
        Kind::I8
    } else if width <= 16 {
        Kind::I16
    } else if width <= 32 {
        Kind::I32
    } else if width <= 64 {
        Kind::I64
    } else {
        Kind::I128
    }
}

pub open spec fn unsigned_of(width: nat) -> Kind {
    if width <= 8 {
        Kind::U8
    } else if width <= 16 {
        Kind::U16
    } else if width <= 32 {
        Kind::U32
    } else if width <= 64 {
        Kind::U64
    } else {
        Kind::U128
    }
}

pub open spec fn max_nat(a: nat, b: nat) -> nat {
    if a >= b {
        a
    } else {
        b
    }
}

/// The promotion rule.
///
/// A kind combined with itself stays unchanged. Two signed or two unsigned
/// integers give the wider one. A signed and an unsigned integer give a signed
/// integer twice as wide as the unsigned one (at least as wide as the signed
/// one, at most 128 bits). An integer of up to 32 bits and a float give at least
/// a 32-bit float, a 64-bit integer gives a 64-bit float, and a 128-bit integer
/// cannot be combined with a float. Two floats give a 64-bit float.
pub open spec fn promote_kind(a: Kind, b: Kind) -> Option<Kind> {
    if a == b {
        Some(a)
    } else if a.is_float() && b.is_float() {
        Some(Kind::F64)
    } else if a.is_float() || b.is_float() {
        let (f, i) = if a.is_float() { (a, b) } else { (b, a) };
        if i.width() == 128 {
            None
        } else if i.width() <= 32 {
            Some(f)
        } else {
            Some(Kind::F64)
        }
    } else if a.is_signed() && b.is_signed() {
        Some(signed_of(max_nat(a.width(), b.width())))
    } else if a.is_unsigned() && b.is_unsigned() {
        Some(unsigned_of(max_nat(a.width(), b.width())))
    } else {
        let (s, u) = if a.is_signed() { (a, b) } else { (b, a) };
        Some(signed_of(max_nat(s.width(), 2 * u.width())))
    }
}

/// Whether the integer kind `k` holds the value `v` exactly. The float kinds are
/// given no integer range here.
pub open spec fn fits(k: Kind, v: int) -> bool {
    match k {
        Kind::I8 => -128 <= v <= 127,
        Kind::I16 => -32768 <= v <= 32767,
        Kind::I32 => -2147483648 <= v <= 2147483647,
        Kind::I64 => -9223372036854775808 <= v <= 9223372036854775807,
        Kind::I128 => -170141183460469231731687303715884105728 <= v <= 170141183460469231731687303715884105727,
        Kind::U8 => 0 <= v <= 255,
        Kind::U16 => 0 <= v <= 65535,
        Kind::U32 => 0 <= v <= 4294967295,
        Kind::U64 => 0 <= v <= 18446744073709551615,
        Kind::U128 => 0 <= v <= 340282366920938463463374607431768211455,
        Kind::F32 | Kind::F64 => false,
    }
}

/// Promotion is symmetric: the order of the operands does not change the result kind.
pub proof fn lemma_promote_symmetric(a: Kind, b: Kind)
    ensures
        promote_kind(a, b) == promote_kind(b, a),
{
}

/// Promotion is reflexive: combining a kind with itself gives that kind.
pub proof fn lemma_promote_reflexive(a: Kind)
    ensures
        promote_kind(a, a) == Some(a),
{
}

/// A 128-bit integer kind has no promotion with a float kind; every other pair has one.
pub proof fn lemma_promote_defined(a: Kind, b: Kind)
    ensures
        promote_kind(a, b) is None <==> ((a is I128 || a is U128) && b.is_float()) || (
        (b is I128 || b is U128) && a.is_float()),
{
}

/// Combining two integer kinds gives an integer kind that holds every value of
/// both exactly, except for a signed kind combined with `u128`, which gives `i128`.
pub proof fn lemma_promote_integers_exact(a: Kind, b: Kind, v: int)
    requires
        a.is_integer(),
        b.is_integer(),
        !(a.is_signed() && b is U128),
        !(b.is_signed() && a is U128),
        fits(a, v) || fits(b, v),
    ensures
        promote_kind(a, b) is Some,
        promote_kind(a, b).unwrap().is_integer(),
        fits(promote_kind(a, b).unwrap(), v),
{
}

} // verus!
