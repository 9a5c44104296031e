//! Loudness factors, held as the bit patterns of IEEE 754 binary32 numbers.
//!
//! The library only ever asks where such a number lies relative to `0.0` and
//! `1.0`, and whether two are equal; that is answered on the bits. The value a pattern denotes is
//! modelled by [`Volume::scaled`], an exact integer.
use vstd::arithmetic::power2::{
    lemma2_to64, lemma_pow2_adds, lemma_pow2_pos, lemma_pow2_strictly_increases, pow2,
};
use vstd::prelude::*;

verus! {

/// The bits of `1.0`.
pub const ONE_BITS: u32 = 0x3F80_0000;

/// The bits of `-0.0`; every pattern above it has a negative sign.
pub const NEGATIVE_ZERO_BITS: u32 = 0x8000_0000;

/// The bits of positive infinity; magnitudes above it are not numbers.
pub const INFINITY_BITS: u32 = 0x7F80_0000;

/// A loudness factor. Two are equal as numbers are: the zeros of both signs are, and
/// what is no number equals nothing, not even itself.
#[derive(Clone, Copy, Debug)]
pub struct Volume {
    pub bits: u32,
}

impl Volume {
    /// The sign bit.
    pub open spec fn negative(self) -> bool {
        self.bits >= NEGATIVE_ZERO_BITS
    }

    /// The bits without the sign.
    pub open spec fn magnitude_bits(self) -> int {
        if self.negative() {
            self.bits - NEGATIVE_ZERO_BITS
        } else {
            self.bits as int
        }
    }

    /// The biased exponent.
    pub open spec fn exponent(self) -> int {
        self.magnitude_bits() / 0x80_0000
    }

    /// The fraction field.
    pub open spec fn fraction(self) -> int {
        self.magnitude_bits() % 0x80_0000
    }

    /// Whether the pattern denotes no number at all.
    pub open spec fn is_nan(self) -> bool {
        self.exponent() == 255 && self.fraction() != 0
    }

    /// The absolute value in units of two to the power of -149, the smallest
    /// positive binary32 number. An infinity lies above every finite value.
    pub open spec fn scaled_magnitude(self) -> int {
        if self.exponent() == 0 {
            self.fraction()
        } else {
            (0x80_0000 + self.fraction()) * pow2((self.exponent() - 1) as nat)
        }
    }

    /// The value in units of two to the power of -149.
    pub open spec fn scaled(self) -> int {
        if self.negative() {
            -self.scaled_magnitude()
        } else {
            self.scaled_magnitude()
        }
    }

    /// Whether the value lies in `0.0..=1.0`. Negative zero does.
    pub open spec fn in_unit_range(self) -> bool {
        &&& !self.is_nan()
        &&& 0 <= self.scaled() <= pow2(149)
    }

    /// What clamping to `0.0..=1.0` makes of the volume. What is no number stays so.
    pub open spec fn clamped(self) -> Volume {
        if self.is_nan() {
            self
        } else if self.scaled() < 0 {
            Volume { bits: 0 }
        } else if self.scaled() > pow2(149) {
            Volume { bits: ONE_BITS }
        } else {
            self
        }
    }

    /// Whether two volumes are numbers, and the same.
    pub open spec fn equals(self, other: Volume) -> bool {
        !self.is_nan() && !other.is_nan() && self.scaled() == other.scaled()
    }

    /// The bits without the sign.
    fn magnitude(self) -> (bits: u32)
        ensures
            bits == self.magnitude_bits(),
    {
        if self.bits >= NEGATIVE_ZERO_BITS {
            self.bits - NEGATIVE_ZERO_BITS
        } else {
            self.bits
        }
    }

    /// Whether the volume is a number in `0.0..=1.0`.
    pub fn is_unit(self) -> (ok: bool)
        ensures
            ok == self.in_unit_range(),
    {
        proof {
            lemma_unit_bits(self);
        }
        self.bits <= ONE_BITS || self.bits == NEGATIVE_ZERO_BITS
    }

    /// Clamps the volume to `0.0..=1.0`.
    pub fn clamp_unit(self) -> (clamped: Volume)
        ensures
            clamped == self.clamped(),
    {
        proof {
            lemma_unit_bits(self);
        }
        if self.is_unit() {
            return self;
        }
        if self.bits < NEGATIVE_ZERO_BITS {
            if self.bits > INFINITY_BITS {
                self
            } else {
                Volume { bits: ONE_BITS }
            }
        } else if self.magnitude() > INFINITY_BITS {
            self
        } else {
            Volume { bits: 0 }
        }
    }
}

impl PartialEq for Volume {
    fn eq(&self, other: &Volume) -> (same: bool) {
        proof {
            lemma_unit_bits(*self);
            lemma_unit_bits(*other);
            lemma_magnitude_order(*self, *other);
            lemma_magnitude_order(*other, *self);
        }
        let a: u32 = self.magnitude();
        let b: u32 = other.magnitude();
        a <= INFINITY_BITS && b <= INFINITY_BITS && (self.bits == other.bits || (a == 0 && b == 0))
    }
}

impl vstd::std_specs::cmp::PartialEqSpecImpl for Volume {
    open spec fn obeys_eq_spec() -> bool {
        true
    }

    open spec fn eq_spec(&self, other: &Volume) -> bool {
        self.equals(*other)
    }
}

/// A larger magnitude has larger bits.
proof fn lemma_magnitude_order(a: Volume, b: Volume)
    ensures
        a.magnitude_bits() < b.magnitude_bits() ==> a.scaled_magnitude() < b.scaled_magnitude(),
{
    let (e, f) = (a.exponent(), a.fraction());
    let (g, h) = (b.exponent(), b.fraction());
    assert(a.magnitude_bits() == e * 0x80_0000 + f && 0 <= f < 0x80_0000 && 0 <= e <= 255);
    assert(b.magnitude_bits() == g * 0x80_0000 + h && 0 <= h < 0x80_0000 && 0 <= g <= 255);
    if a.magnitude_bits() < b.magnitude_bits() && g > 0 {
        let q = pow2((g - 1) as nat);
        lemma_pow2_pos((g - 1) as nat);
        if e == 0 {
            assert(0x80_0000 <= (0x80_0000 + h) * q) by (nonlinear_arith)
                requires
                    h >= 0,
                    q >= 1,
            ;
        } else if e == g {
            assert((0x80_0000 + f) * q < (0x80_0000 + h) * q) by (nonlinear_arith)
                requires
                    f < h,
                    q >= 1,
            ;
        } else {
            let p = pow2((e - 1) as nat);
            lemma_pow2_pos((e - 1) as nat);
            lemma2_to64();
            lemma_pow2_adds(1, (e - 1) as nat);
            if e + 1 < g {
                lemma_pow2_strictly_increases(e as nat, (g - 1) as nat);
            }
            assert((0x80_0000 + f) * p < (0x80_0000 + h) * q) by (nonlinear_arith)
                requires
                    f < 0x80_0000,
                    h >= 0,
                    p >= 1,
                    q >= 2 * p,
            ;
        }
    }
}

/// Where the bit patterns of interest lie: zero, at most one, and not a number.
pub(crate) proof fn lemma_unit_bits(v: Volume)
    ensures
        v.is_nan() <==> v.magnitude_bits() > INFINITY_BITS,
        v.scaled_magnitude() >= 0,
        v.scaled_magnitude() == 0 <==> v.magnitude_bits() == 0,
        v.scaled_magnitude() <= pow2(149) <==> v.magnitude_bits() <= ONE_BITS,
{
    let e = v.exponent();
    let f = v.fraction();
    assert(v.magnitude_bits() == e * 0x80_0000 + f && 0 <= f < 0x80_0000 && 0 <= e <= 255);
    lemma2_to64();
    lemma_pow2_adds(23, 126);
    assert(pow2(149) == 0x80_0000 * pow2(126));
    lemma_pow2_pos(126);
    if e == 0 {
        assert(0x80_0000 <= 0x80_0000 * pow2(126)) by (nonlinear_arith)
            requires
                pow2(126) >= 1,
        ;
    } else {
        let p = pow2((e - 1) as nat);
        lemma_pow2_pos((e - 1) as nat);
        assert((0x80_0000 + f) * p > 0) by (nonlinear_arith)
            requires
                f >= 0,
                p > 0,
        ;
        if e <= 126 {
            lemma_pow2_adds(24, 125);
            assert(pow2(149) == 0x100_0000 * pow2(125));
            if e < 126 {
                lemma_pow2_strictly_increases((e - 1) as nat, 125);
            }
            assert((0x80_0000 + f) * p <= 0x100_0000 * pow2(125)) by (nonlinear_arith)
                requires
                    0 <= f < 0x80_0000,
                    0 < p <= pow2(125),
            ;
        } else if e == 127 {
            assert((0x80_0000 + f) * p <= 0x80_0000 * p <==> f == 0) by (nonlinear_arith)
                requires
                    0 <= f,
                    p > 0,
            ;
        } else {
            lemma_pow2_strictly_increases(126, (e - 1) as nat);
            assert((0x80_0000 + f) * p > 0x80_0000 * pow2(126)) by (nonlinear_arith)
                requires
                    0 <= f,
                    p > pow2(126),
            ;
        }
    }
}

/// Clamping leaves a number in range, keeps what was in range, and does no more
/// the second time.
pub proof fn law_clamping_lands_in_range(v: Volume)
    ensures
        !v.is_nan() ==> v.clamped().in_unit_range(),
        v.in_unit_range() ==> v.clamped() == v,
        v.clamped().clamped() == v.clamped(),
{
    lemma_unit_bits(v);
    lemma_unit_bits(Volume { bits: 0 });
    lemma_unit_bits(Volume { bits: ONE_BITS });
}

/// A volume lies in `0.0..=1.0` exactly where its bits are at most those of `1.0`, or
/// those of `-0.0`.
pub proof fn law_unit_range_by_bits(volume: Volume, ok: bool)
    requires
        call_ensures(Volume::is_unit, (volume,), ok),
    ensures
        ok <==> volume.bits <= 0x3F80_0000 || volume.bits == 0x8000_0000,
{
    lemma_unit_bits(volume);
}

/// Clamping brings every number above `1.0` to `1.0`, every number below zero to `0.0`,
/// infinities with them, and leaves all else as it is, to the bit.
pub proof fn law_clamping_by_bits(volume: Volume, clamped: Volume)
    requires
        call_ensures(Volume::clamp_unit, (volume,), clamped),
    ensures
        0x3F80_0000 < volume.bits <= 0x7F80_0000 ==> clamped.bits == 0x3F80_0000,
        0x8000_0000 < volume.bits <= 0xFF80_0000 ==> clamped.bits == 0,
        !(0x3F80_0000 < volume.bits <= 0x7F80_0000) && !(0x8000_0000 < volume.bits <= 0xFF80_0000)
            ==> clamped.bits == volume.bits,
{
    lemma_unit_bits(volume);
}

/// Two volumes are equal exactly where they have the same bits, those of a number, or
/// are both zero.
pub proof fn law_equality_by_bits(a: Volume, b: Volume, same: bool)
    requires
        call_ensures(Volume::eq, (&a, &b), same),
    ensures
        same <==> (a.bits == b.bits && (a.bits <= 0x7F80_0000 || 0x8000_0000 <= a.bits
            <= 0xFF80_0000)) || ((a.bits == 0 || a.bits == 0x8000_0000) && (b.bits == 0 || b.bits
            == 0x8000_0000)),
{
    lemma_unit_bits(a);
    lemma_unit_bits(b);
    lemma_magnitude_order(a, b);
    lemma_magnitude_order(b, a);
}

} // verus!
