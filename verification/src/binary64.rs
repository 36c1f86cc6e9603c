//! IEEE 754 binary64 numbers, held by their bit patterns.
//!
//! A [`Binary64`] is the 64 bits of a double-precision number. What the bits
//! denote is stated here over the integers: the *size* of a number is its
//! absolute value counted in units of 2^-1074, the smallest positive binary64,
//! so every finite number has a whole size and the number one has size
//! 2^1074. Comparisons are defined on sizes and proved to agree with plain
//! comparisons of the bit patterns.
use vstd::arithmetic::mul::{
    lemma_mul_inequality, lemma_mul_is_associative, lemma_mul_strict_inequality,
};
use vstd::arithmetic::power2::{
    lemma2_to64, lemma2_to64_rest, lemma_pow2_adds, lemma_pow2_pos, lemma_pow2_strictly_increases,
    lemma_pow2_unfold, pow2,
};
use vstd::prelude::*;
use vstd::std_specs::cmp::PartialEqSpecImpl;

verus! {

/// The bit that holds the sign.
pub const SIGN_BIT: u64 = 0x8000_0000_0000_0000;

/// The number of fractions per exponent, 2^52.
pub const FRACTION_SPAN: u64 = 0x0010_0000_0000_0000;

/// The magnitude bits of an infinity; larger magnitudes are not a number
/// (NaN).
pub const INFINITY_BITS: u64 = 0x7ff0_0000_0000_0000;

/// The bits of the number ninety.
pub const NINETY_BITS: u64 = 0x4056_8000_0000_0000;

/// The bits of the number one hundred and eighty.
pub const ONE_EIGHTY_BITS: u64 = 0x4066_8000_0000_0000;

/// The exponent field of the magnitude bits `m` (the bits without the
/// sign): their upper eleven bits.
pub open spec fn exponent_of(m: nat) -> nat {
    m / (FRACTION_SPAN as nat)
}

/// The fraction field of the magnitude bits `m`: their lower 52 bits.
pub open spec fn fraction_of(m: nat) -> nat {
    m % (FRACTION_SPAN as nat)
}

/// The size of the number with magnitude bits `m`: with a zero exponent
/// field the fraction itself, otherwise the fraction with its hidden
/// leading bit, doubled once for each step of the exponent field above one.
///
/// For an infinity this is 2^2098, above the size of every finite number.
pub open spec fn size_of(m: nat) -> nat {
    if exponent_of(m) == 0 {
        fraction_of(m)
    } else {
        (FRACTION_SPAN + fraction_of(m)) as nat * pow2((exponent_of(m) - 1) as nat)
    }
}

/// The size of the whole number `n` (for a negative `n`, its negation).
pub open spec fn whole(n: int) -> int {
    n * pow2(1074)
}

/// A double-precision number, held by its bits.
#[derive(Clone, Copy, Debug)]
pub struct Binary64 {
    pub bits: u64,
}

impl Binary64 {
    /// Whether the sign bit is set.
    pub open spec fn sign(self) -> bool {
        self.bits >= SIGN_BIT
    }

    /// The bits without the sign.
    pub open spec fn magnitude(self) -> nat {
        if self.bits >= SIGN_BIT {
            (self.bits - SIGN_BIT) as nat
        } else {
            self.bits as nat
        }
    }

    /// Whether the bits are not a number (NaN).
    pub open spec fn nan(self) -> bool {
        self.magnitude() > INFINITY_BITS
    }

    /// The absolute value in units of 2^-1074.
    pub open spec fn size(self) -> nat {
        size_of(self.magnitude())
    }

    /// The value in units of 2^-1074: the size, negated under a set sign.
    pub open spec fn scaled(self) -> int {
        if self.sign() {
            -(self.size() as int)
        } else {
            self.size() as int
        }
    }

    /// `self <= other` as IEEE 754 has it: false where either is not a
    /// number.
    pub open spec fn le(self, other: Self) -> bool {
        !self.nan() && !other.nan() && self.scaled() <= other.scaled()
    }

    /// `self < other` as IEEE 754 has it.
    pub open spec fn lt(self, other: Self) -> bool {
        !self.nan() && !other.nan() && self.scaled() < other.scaled()
    }

    /// `self == other` as IEEE 754 has it: the two zeros are equal, and
    /// what is not a number equals nothing, itself included.
    pub open spec fn same(self, other: Self) -> bool {
        !self.nan() && !other.nan() && self.scaled() == other.scaled()
    }

    /// Whether `low <= self <= high` for the whole numbers `low` and `high`.
    pub open spec fn between(self, low: int, high: int) -> bool {
        !self.nan() && whole(low) <= self.scaled() <= whole(high)
    }

    /// Whether the number is below zero.
    pub open spec fn negative(self) -> bool {
        !self.nan() && self.scaled() < 0
    }

    /// The number with the given bits.
    pub fn from_bits(bits: u64) -> (r: Self)
        ensures
            r.bits == bits,
    {
        Binary64 { bits }
    }

    /// The bits of the number.
    pub fn to_bits(self) -> (r: u64)
        ensures
            r == self.bits,
    {
        self.bits
    }

    /// The number zero.
    pub fn zero() -> (r: Self)
        ensures
            r.bits == 0,
            r.scaled() == 0,
            !r.nan(),
    {
        Binary64 { bits: 0 }
    }

    /// The number ninety.
    pub fn ninety() -> (r: Self)
        ensures
            r.bits == NINETY_BITS,
            r.scaled() == whole(90),
            !r.nan(),
    {
        proof {
            lemma_ninety();
        }
        Binary64 { bits: NINETY_BITS }
    }

    /// The number one hundred and eighty.
    pub fn one_eighty() -> (r: Self)
        ensures
            r.bits == ONE_EIGHTY_BITS,
            r.scaled() == whole(180),
            !r.nan(),
    {
        proof {
            lemma_one_eighty();
        }
        Binary64 { bits: ONE_EIGHTY_BITS }
    }

    fn magnitude_bits(self) -> (r: u64)
        ensures
            r == self.magnitude(),
            r < SIGN_BIT,
    {
        if self.bits >= SIGN_BIT {
            self.bits - SIGN_BIT
        } else {
            self.bits
        }
    }

    /// Whether the bits are not a number (NaN).
    pub fn is_nan(self) -> (r: bool)
        ensures
            r == self.nan(),
    {
        self.magnitude_bits() > INFINITY_BITS
    }

    /// The absolute value: the same bits with the sign cleared.
    pub fn abs(self) -> (r: Self)
        ensures
            r.bits == self.magnitude(),
            r.nan() == self.nan(),
            r.scaled() == self.size(),
    {
        Binary64 { bits: self.magnitude_bits() }
    }

    /// The negation: the same bits with the sign flipped.
    pub fn neg(self) -> (r: Self)
        ensures
            r.magnitude() == self.magnitude(),
            r.sign() == !self.sign(),
            r.nan() == self.nan(),
            r.scaled() == -self.scaled(),
    {
        if self.bits >= SIGN_BIT {
            Binary64 { bits: self.bits - SIGN_BIT }
        } else {
            Binary64 { bits: self.bits + SIGN_BIT }
        }
    }

    /// Whether `self <= other`.
    pub fn is_le(self, other: Self) -> (r: bool)
        ensures
            r == self.le(other),
    {
        let a: u64 = self.magnitude_bits();
        let b: u64 = other.magnitude_bits();
        proof {
            lemma_size_order(a as nat, b as nat);
            lemma_size_order(b as nat, a as nat);
            lemma_size_order(a as nat, 0);
            lemma_size_order(b as nat, 0);
        }
        if a > INFINITY_BITS || b > INFINITY_BITS {
            false
        } else if self.bits >= SIGN_BIT {
            if other.bits >= SIGN_BIT {
                b <= a
            } else {
                true
            }
        } else if other.bits >= SIGN_BIT {
            a == 0 && b == 0
        } else {
            a <= b
        }
    }

    /// Whether `self < other`.
    pub fn is_lt(self, other: Self) -> (r: bool)
        ensures
            r == self.lt(other),
    {
        let a: u64 = self.magnitude_bits();
        let b: u64 = other.magnitude_bits();
        proof {
            lemma_size_order(a as nat, b as nat);
            lemma_size_order(b as nat, a as nat);
            lemma_size_order(a as nat, 0);
            lemma_size_order(b as nat, 0);
        }
        if a > INFINITY_BITS || b > INFINITY_BITS {
            false
        } else if self.bits >= SIGN_BIT {
            if other.bits >= SIGN_BIT {
                b < a
            } else {
                a != 0 || b != 0
            }
        } else if other.bits >= SIGN_BIT {
            false
        } else {
            a < b
        }
    }

    /// Whether the number is below zero.
    pub fn is_negative(self) -> (r: bool)
        ensures
            r == self.negative(),
    {
        self.is_lt(Binary64::zero())
    }
}

impl PartialEq for Binary64 {
    /// Whether the two are equal numbers.
    fn eq(&self, other: &Self) -> (r: bool) {
        let a: u64 = self.magnitude_bits();
        let b: u64 = other.magnitude_bits();
        proof {
            lemma_size_order(a as nat, b as nat);
            lemma_size_order(b as nat, a as nat);
            lemma_size_order(a as nat, 0);
            lemma_size_order(b as nat, 0);
        }
        if a > INFINITY_BITS || b > INFINITY_BITS {
            false
        } else {
            self.bits == other.bits || (a == 0 && b == 0)
        }
    }
}

impl PartialEqSpecImpl for Binary64 {
    open spec fn obeys_eq_spec() -> bool {
        true
    }

    open spec fn eq_spec(&self, other: &Self) -> bool {
        self.same(*other)
    }
}

/// The sizes of one exponent field lie together: from the least size of
/// the field up to, but not reaching, the least size of the next.
proof fn lemma_size_bounds(m: nat)
    ensures
        exponent_of(m) > 0 ==> FRACTION_SPAN * pow2((exponent_of(m) - 1) as nat) <= size_of(m),
        size_of(m) < FRACTION_SPAN * pow2(exponent_of(m)),
{
    let span: int = FRACTION_SPAN as int;
    let e: nat = exponent_of(m);
    let f: int = fraction_of(m) as int;
    if e == 0 {
        lemma2_to64();
    } else {
        let q: int = pow2((e - 1) as nat) as int;
        lemma_pow2_pos((e - 1) as nat);
        lemma_pow2_unfold(e);
        lemma_mul_inequality(span, span + f, q);
        lemma_mul_strict_inequality(span + f, 2 * span, q);
        lemma_mul_is_associative(span, 2, q);
    }
}

/// Sizes grow with the magnitude bits, strictly.
proof fn lemma_size_strictly_increases(a: nat, b: nat)
    requires
        a < b,
    ensures
        size_of(a) < size_of(b),
{
    let span: int = FRACTION_SPAN as int;
    let ea: nat = exponent_of(a);
    let eb: nat = exponent_of(b);
    let fa: int = fraction_of(a) as int;
    let fb: int = fraction_of(b) as int;
    if ea == eb {
        if ea > 0 {
            let q: int = pow2((ea - 1) as nat) as int;
            lemma_pow2_pos((ea - 1) as nat);
            lemma_mul_strict_inequality(span + fa, span + fb, q);
        }
    } else {
        assert(ea < eb);
        lemma_size_bounds(a);
        lemma_size_bounds(b);
        if ea < eb - 1 {
            lemma_pow2_strictly_increases(ea, (eb - 1) as nat);
        }
        lemma_mul_inequality(pow2(ea) as int, pow2((eb - 1) as nat) as int, span);
    }
}

/// The order of two sizes is the order of their magnitude bits.
pub proof fn lemma_size_order(a: nat, b: nat)
    ensures
        a < b <==> size_of(a) < size_of(b),
        a == b <==> size_of(a) == size_of(b),
        size_of(0) == 0,
{
    if a < b {
        lemma_size_strictly_increases(a, b);
    }
    if b < a {
        lemma_size_strictly_increases(b, a);
    }
}

/// The bits `NINETY_BITS` denote ninety.
pub proof fn lemma_ninety()
    ensures
        size_of(NINETY_BITS as nat) == whole(90),
{
    lemma2_to64();
    lemma2_to64_rest();
    lemma_pow2_adds(46, 1028);
    assert(exponent_of(NINETY_BITS as nat) == 1029);
    assert(FRACTION_SPAN + fraction_of(NINETY_BITS as nat) == 90 * pow2(46));
    lemma_mul_is_associative(90, pow2(46) as int, pow2(1028) as int);
}

/// The bits `ONE_EIGHTY_BITS` denote one hundred and eighty.
pub proof fn lemma_one_eighty()
    ensures
        size_of(ONE_EIGHTY_BITS as nat) == whole(180),
{
    lemma2_to64();
    lemma2_to64_rest();
    lemma_pow2_adds(45, 1029);
    assert(exponent_of(ONE_EIGHTY_BITS as nat) == 1030);
    assert(FRACTION_SPAN + fraction_of(ONE_EIGHTY_BITS as nat) == 180 * pow2(45));
    lemma_mul_is_associative(180, pow2(45) as int, pow2(1029) as int);
}

} // verus!
