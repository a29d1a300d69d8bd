//! IEEE 754 binary32 numbers, held by bit pattern.

use vstd::arithmetic::power2::*;
use vstd::prelude::*;

verus! {

/// A binary32 number. Equality of two values is equality of their bit patterns.
#[derive(Debug, Clone, Copy, PartialEq, Eq, Structural)]
pub struct Float32 {
    /// Sign (1 bit), exponent (8 bits) and fraction (23 bits), high to low.
    pub bits: u32,
}

/// The bit pattern of 1.0.
pub const ONE_BITS: u32 = 0x3f80_0000;

/// The bit pattern of -1.0.
pub const MINUS_ONE_BITS: u32 = 0xbf80_0000;

/// The number, in units of 2^-149, that exponent and fraction stand for. An infinity
/// counts as the number that would follow the largest finite one.
pub open spec fn scaled(magnitude: nat) -> nat {
    let exponent = magnitude / 0x80_0000;
    let fraction = magnitude % 0x80_0000;
    if exponent == 0 {
        fraction
    } else {
        (fraction + 0x80_0000) * pow2((exponent - 1) as nat)
    }
}

impl Float32 {
    /// Exponent and fraction: the pattern without its sign bit.
    pub open spec fn magnitude(self) -> nat {
        (self.bits % 0x8000_0000) as nat
    }

    /// Whether the sign bit is set.
    pub open spec fn negative(self) -> bool {
        self.bits >= 0x8000_0000
    }

    /// Whether the pattern is not a number.
    pub open spec fn is_nan(self) -> bool {
        self.magnitude() > 0x7f80_0000
    }

    /// The number the pattern stands for, in units of 2^-149.
    pub open spec fn value(self) -> int {
        if self.negative() {
            -(scaled(self.magnitude()) as int)
        } else {
            scaled(self.magnitude()) as int
        }
    }

    /// The number restricted to an interval; what is not a number stays as it is.
    pub open spec fn clamped(self, low: Float32, high: Float32) -> Float32 {
        if self.is_nan() {
            self
        } else if self.value() < low.value() {
            low
        } else if self.value() > high.value() {
            high
        } else {
            self
        }
    }

    /// A key that orders patterns as the numbers they stand for.
    fn order_key(self) -> (r: i64)
        ensures
            r == (if self.negative() {
                -(self.magnitude() as int)
            } else {
                self.magnitude() as int
            }),
    {
        if self.bits >= 0x8000_0000 {
            -((self.bits - 0x8000_0000) as i64)
        } else {
            self.bits as i64
        }
    }

    /// Whether one number is below another.
    fn below(self, other: Float32) -> (r: bool)
        ensures
            r == (self.value() < other.value()),
    {
        proof {
            scaled_is_increasing(self.magnitude(), other.magnitude());
            scaled_is_increasing(other.magnitude(), self.magnitude());
        }
        self.order_key() < other.order_key()
    }

    /// Restricts the number to the interval from `low` to `high`; what is not a number
    /// stays as it is.
    pub fn clamp(self, low: Float32, high: Float32) -> (r: Float32)
        requires
            !low.is_nan(),
            !high.is_nan(),
            low.value() <= high.value(),
        ensures
            r == self.clamped(low, high),
    {
        if self.bits % 0x8000_0000 > 0x7f80_0000 {
            self
        } else if self.below(low) {
            low
        } else if high.below(self) {
            high
        } else {
            self
        }
    }
}

/// Larger magnitudes stand for larger numbers, and only zero stands for zero.
pub proof fn scaled_is_increasing(a: nat, b: nat)
    ensures
        a < b ==> scaled(a) < scaled(b),
        scaled(a) == 0 <==> a == 0,
{
    let ea = a / 0x80_0000;
    let eb = b / 0x80_0000;
    let fa = a % 0x80_0000;
    let fb = b % 0x80_0000;
    if ea > 0 {
        let pa = pow2((ea - 1) as nat);
        lemma_pow2_pos((ea - 1) as nat);
        assert((fa + 0x80_0000) * pa > 0) by (nonlinear_arith)
            requires
                pa > 0,
        ;
    }
    if a < b && eb > 0 {
        let pb = pow2((eb - 1) as nat);
        lemma_pow2_pos((eb - 1) as nat);
        if ea == 0 {
            assert((fb + 0x80_0000) * pb >= 0x80_0000) by (nonlinear_arith)
                requires
                    pb >= 1,
            ;
        } else if ea == eb {
            assert((fa + 0x80_0000) * pb < (fb + 0x80_0000) * pb) by (nonlinear_arith)
                requires
                    fa < fb,
                    pb >= 1,
            ;
        } else {
            let pa = pow2((ea - 1) as nat);
            lemma_pow2_unfold(ea);
            assert(pow2(ea) == 2 * pa);
            if ea < eb - 1 {
                lemma_pow2_strictly_increases(ea, (eb - 1) as nat);
            }
            assert(pb >= 2 * pa);
            assert((fa + 0x80_0000) * pa < (fb + 0x80_0000) * pb) by (nonlinear_arith)
                requires
                    fa < 0x80_0000,
                    pb >= 2 * pa,
                    pa >= 1,
            ;
        }
    }
}

/// A clamped number is not a number, or lies in the interval.
pub proof fn clamped_is_within(x: Float32, low: Float32, high: Float32)
    requires
        low.value() <= high.value(),
    ensures
        x.is_nan() || low.value() <= x.clamped(low, high).value() <= high.value(),
        x.is_nan() ==> x.clamped(low, high) == x,
{
}

/// Clamping twice to one interval changes nothing more.
pub proof fn clamped_is_idempotent(x: Float32, low: Float32, high: Float32)
    requires
        low.value() <= high.value(),
    ensures
        x.clamped(low, high).clamped(low, high) == x.clamped(low, high),
{
}

} // verus!
