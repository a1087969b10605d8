//! Saturating fixed-point scalars.
//!
//! An [`Fx`] carries a physical quantity as a signed count of millionths
//! (`raw == 1_000_000` stands for one unit). Arithmetic truncates toward
//! zero exactly as wide integer division does, and saturates at the `i64`
//! range instead of overflowing, so every operation is total and its result
//! is pinned exactly by the spec-level models below.

use vstd::prelude::*;

verus! {

/// Raw count of one unit: all quantities are counts of millionths.
pub const FX_SCALE: i64 = 1_000_000;

/// Magnitude of an integer.
pub open spec fn iabs(x: int) -> int {
    if x >= 0 {
        x
    } else {
        -x
    }
}

/// Clamp an unbounded integer to the `i64` range.
pub open spec fn sat64(x: int) -> int {
    if x > i64::MAX as int {
        i64::MAX as int
    } else if x < i64::MIN as int {
        i64::MIN as int
    } else {
        x
    }
}

/// Division truncating toward zero (the machine's signed division),
/// written over Euclidean `/` on magnitudes. Unspecified for `b == 0`.
pub open spec fn tdiv(a: int, b: int) -> int {
    if a == 0 {
        0
    } else if a > 0 && b > 0 {
        a / b
    } else if a < 0 && b < 0 {
        (a * -1) / (b * -1)
    } else if a < 0 {
        ((a * -1) / b) * -1
    } else {
        (a / (b * -1)) * -1
    }
}

/// Model of [`Fx::add`] on raw counts.
pub open spec fn v_add(a: int, b: int) -> int {
    sat64(a + b)
}

/// Model of [`Fx::sub`] on raw counts.
pub open spec fn v_sub(a: int, b: int) -> int {
    sat64(a - b)
}

/// Model of [`Fx::neg`] on raw counts.
pub open spec fn v_neg(a: int) -> int {
    sat64(-a)
}

/// Model of [`Fx::mul`] on raw counts.
pub open spec fn v_mul(a: int, b: int) -> int {
    sat64(tdiv(a * b, FX_SCALE as int))
}

/// Model of [`Fx::div`] on raw counts (`b != 0`).
pub open spec fn v_div(a: int, b: int) -> int {
    sat64(tdiv(a * FX_SCALE, b))
}

/// Model of [`Fx::min`] on raw counts.
pub open spec fn v_min(a: int, b: int) -> int {
    if a <= b {
        a
    } else {
        b
    }
}

/// Model of [`Fx::max`] on raw counts.
pub open spec fn v_max(a: int, b: int) -> int {
    if a >= b {
        a
    } else {
        b
    }
}

/// Model of [`Fx::clamp`] on raw counts (`lo <= hi`).
pub open spec fn v_clamp(a: int, lo: int, hi: int) -> int {
    v_min(v_max(a, lo), hi)
}

/// Model of [`Fx::lerp`] on raw counts: `a + (b - a) * t`.
pub open spec fn v_lerp(a: int, b: int, t: int) -> int {
    v_add(a, v_mul(v_sub(b, a), t))
}

/// The floor square root: the unique `r >= 0` with `r * r <= n < (r+1) * (r+1)`.
pub open spec fn sqrt_v(n: int) -> int {
    choose|r: int| r >= 0 && #[trigger] (r * r) <= n && n < (r + 1) * (r + 1)
}

/// A saturating fixed-point number: `raw` counts millionths of a unit.
#[derive(Clone, Copy, PartialEq, Eq, Structural, Debug)]
pub struct Fx {
    pub raw: i64,
}

impl Fx {
    /// The number zero.
    pub fn zero() -> (r: Fx)
        ensures
            r.raw == 0,
    {
        Fx { raw: 0 }
    }

    /// The number carried by a given raw count of millionths.
    pub fn from_raw(raw: i64) -> (r: Fx)
        ensures
            r.raw == raw,
    {
        Fx { raw }
    }

    /// The number standing for `units` whole units, saturated.
    pub fn from_units(units: i64) -> (r: Fx)
        ensures
            r.raw as int == sat64(units * FX_SCALE),
    {
        match units.checked_mul(FX_SCALE) {
            Some(v) => Fx { raw: v },
            None => {
                if units >= 0 {
                    Fx { raw: i64::MAX }
                } else {
                    Fx { raw: i64::MIN }
                }
            },
        }
    }

    /// Saturating addition.
    pub fn add(self, o: Fx) -> (r: Fx)
        ensures
            r.raw as int == v_add(self.raw as int, o.raw as int),
    {
        match self.raw.checked_add(o.raw) {
            Some(v) => Fx { raw: v },
            None => {
                if self.raw >= 0 {
                    Fx { raw: i64::MAX }
                } else {
                    Fx { raw: i64::MIN }
                }
            },
        }
    }

    /// Saturating subtraction.
    pub fn sub(self, o: Fx) -> (r: Fx)
        ensures
            r.raw as int == v_sub(self.raw as int, o.raw as int),
    {
        match self.raw.checked_sub(o.raw) {
            Some(v) => Fx { raw: v },
            None => {
                if self.raw >= 0 {
                    Fx { raw: i64::MAX }
                } else {
                    Fx { raw: i64::MIN }
                }
            },
        }
    }

    /// Saturating negation.
    pub fn neg(self) -> (r: Fx)
        ensures
            r.raw as int == v_neg(self.raw as int),
    {
        if self.raw == i64::MIN {
            Fx { raw: i64::MAX }
        } else {
            Fx { raw: -self.raw }
        }
    }

    /// Saturating product: the raw counts multiply exactly in a wide
    /// integer, scale back down truncating toward zero, then saturate.
    pub fn mul(self, o: Fx) -> (r: Fx)
        ensures
            r.raw as int == v_mul(self.raw as int, o.raw as int),
    {
        let a: i128 = self.raw as i128;
        let b: i128 = o.raw as i128;
        proof {
            assert(a * b <= i128::MAX && a * b >= i128::MIN) by (nonlinear_arith)
                requires
                    -0x8000_0000_0000_0000 <= a <= 0x7fff_ffff_ffff_ffff,
                    -0x8000_0000_0000_0000 <= b <= 0x7fff_ffff_ffff_ffff,
            ;
        }
        let p: i128 = a * b;
        let q: i128 = match p.checked_div(1_000_000) {
            Some(v) => v,
            None => 0,
        };
        proof {
            lemma_tdiv_mag(p as int, 1_000_000);
            assert(q as int == tdiv(self.raw as int * o.raw as int, FX_SCALE as int));
        }
        if q > i64::MAX as i128 {
            Fx { raw: i64::MAX }
        } else if q < i64::MIN as i128 {
            Fx { raw: i64::MIN }
        } else {
            Fx { raw: q as i64 }
        }
    }

    /// Saturating quotient of two fixed-point numbers.
    pub fn div(self, o: Fx) -> (r: Fx)
        requires
            o.raw != 0,
        ensures
            r.raw as int == v_div(self.raw as int, o.raw as int),
    {
        let a: i128 = self.raw as i128;
        proof {
            assert(a * 1_000_000 <= i128::MAX && a * 1_000_000 >= i128::MIN) by (nonlinear_arith)
                requires
                    -0x8000_0000_0000_0000 <= a <= 0x7fff_ffff_ffff_ffff,
            ;
        }
        let n: i128 = a * 1_000_000;
        let q: i128 = match n.checked_div(o.raw as i128) {
            Some(v) => v,
            None => 0,
        };
        proof {
            lemma_tdiv_mag(n as int, o.raw as int);
            assert(q as int == tdiv(self.raw as int * FX_SCALE, o.raw as int));
        }
        if q > i64::MAX as i128 {
            Fx { raw: i64::MAX }
        } else if q < i64::MIN as i128 {
            Fx { raw: i64::MIN }
        } else {
            Fx { raw: q as i64 }
        }
    }

    /// The smaller of two numbers.
    pub fn min(self, o: Fx) -> (r: Fx)
        ensures
            r.raw as int == v_min(self.raw as int, o.raw as int),
    {
        if self.raw <= o.raw {
            self
        } else {
            o
        }
    }

    /// The larger of two numbers.
    pub fn max(self, o: Fx) -> (r: Fx)
        ensures
            r.raw as int == v_max(self.raw as int, o.raw as int),
    {
        if self.raw >= o.raw {
            self
        } else {
            o
        }
    }

    /// Saturating magnitude.
    pub fn abs(self) -> (r: Fx)
        ensures
            r.raw as int == sat64(iabs(self.raw as int)),
    {
        if self.raw >= 0 {
            self
        } else {
            self.neg()
        }
    }

    /// Clamp into `[lo, hi]`.
    pub fn clamp(self, lo: Fx, hi: Fx) -> (r: Fx)
        requires
            lo.raw <= hi.raw,
        ensures
            r.raw as int == v_clamp(self.raw as int, lo.raw as int, hi.raw as int),
    {
        self.max(lo).min(hi)
    }

    /// Linear interpolation from `self` toward `o` by the fraction `t`.
    pub fn lerp(self, o: Fx, t: Fx) -> (r: Fx)
        ensures
            r.raw as int == v_lerp(self.raw as int, o.raw as int, t.raw as int),
    {
        self.add(o.sub(self).mul(t))
    }

    /// The floor square root in fixed point: the result's raw count is the
    /// floor square root of `raw * 1_000_000`.
    pub fn sqrt(self) -> (r: Fx)
        requires
            self.raw >= 0,
        ensures
            r.raw >= 0,
            r.raw as int == sqrt_v(self.raw as int * FX_SCALE as int),
            (r.raw as int) * (r.raw as int) <= (self.raw as int) * (FX_SCALE as int),
            (self.raw as int) * (FX_SCALE as int) < (r.raw as int + 1) * (r.raw as int + 1),
    {
        let n: u128 = (self.raw as u128) * 1_000_000;
        let mut lo: u128 = 0;
        let mut hi: u128 = 4_000_000_000_000;
        proof {
            assert((n as int) < (hi as int) * (hi as int)) by (nonlinear_arith)
                requires
                    n as int <= 0x7fff_ffff_ffff_ffff * 1_000_000,
                    hi as int == 4_000_000_000_000,
            ;
        }
        while lo + 1 < hi
            invariant
                (lo as int) * (lo as int) <= n as int,
                (n as int) < (hi as int) * (hi as int),
                lo < hi <= 4_000_000_000_000,
            decreases hi - lo,
        {
            let mid: u128 = (lo + hi) / 2;
            proof {
                assert((mid as int) * (mid as int) <= 16_000_000_000_000_000_000_000_000)
                    by (nonlinear_arith)
                    requires
                        0 <= mid as int <= 4_000_000_000_000,
                ;
            }
            if mid * mid <= n {
                lo = mid;
            } else {
                hi = mid;
            }
        }
        proof {
            lemma_sqrt_unique(n as int, lo as int);
        }
        Fx { raw: lo as i64 }
    }
}

/// The truncating quotient is no larger in magnitude than the dividend
/// scaled down by the divisor: `|tdiv(a, b)| * |b| <= |a|`, with the
/// remainder smaller than `|b|`.
pub proof fn lemma_tdiv_mag(a: int, b: int)
    requires
        b != 0,
    ensures
        iabs(tdiv(a, b)) * iabs(b) <= iabs(a),
        iabs(a) < (iabs(tdiv(a, b)) + 1) * iabs(b),
        iabs(tdiv(a, b)) == iabs(a) / iabs(b),
        a >= 0 && b > 0 ==> tdiv(a, b) >= 0,
        a <= 0 && b > 0 ==> tdiv(a, b) <= 0,
        a >= 0 && b < 0 ==> tdiv(a, b) <= 0,
        a <= 0 && b < 0 ==> tdiv(a, b) >= 0,
{
    let m: int = iabs(a);
    let d: int = iabs(b);
    vstd::arithmetic::div_mod::lemma_fundamental_div_mod(m, d);
    vstd::arithmetic::div_mod::lemma_div_pos_is_pos(m, d);
    assert(m == d * (m / d) + m % d);
    assert(iabs(tdiv(a, b)) == m / d);
    assert((m / d) * d <= m && m < (m / d + 1) * d) by (nonlinear_arith)
        requires
            m == d * (m / d) + m % d,
            0 <= m % d < d,
    ;
}

/// The floor square root is unique: any nonnegative `r` squeezed between
/// the squares equals `sqrt_v(n)`.
pub proof fn lemma_sqrt_unique(n: int, r: int)
    requires
        r >= 0,
        r * r <= n,
        n < (r + 1) * (r + 1),
    ensures
        sqrt_v(n) == r,
{
    assert(exists|x: int| x >= 0 && #[trigger] (x * x) <= n && n < (x + 1) * (x + 1)) by {
        assert(r >= 0 && r * r <= n && n < (r + 1) * (r + 1));
    }
    let s: int = sqrt_v(n);
    assert(s >= 0 && s * s <= n && n < (s + 1) * (s + 1));
    assert(s == r) by (nonlinear_arith)
        requires
            r >= 0,
            s >= 0,
            r * r <= n,
            n < (r + 1) * (r + 1),
            s * s <= n,
            n < (s + 1) * (s + 1),
    ;
}

/// Saturation never grows a magnitude, and is the identity inside range.
pub proof fn lemma_sat64_mag(x: int)
    ensures
        iabs(sat64(x)) <= iabs(x),
        i64::MIN as int <= x <= i64::MAX as int ==> sat64(x) == x,
        x >= 0 ==> sat64(x) >= 0,
        x <= 0 ==> sat64(x) <= 0,
{
}

/// Scaling a nonnegative value by a fraction `b / c` with `b <= c` keeps
/// it between zero and the value itself.
pub proof fn lemma_scaled_fraction(a: int, b: int, c: int)
    requires
        a >= 0,
        0 <= b <= c,
        c > 0,
    ensures
        0 <= tdiv(a * b, c) <= a,
{
    assert(0 <= a * b <= a * c) by (nonlinear_arith)
        requires
            a >= 0,
            0 <= b <= c,
    ;
    if a * b == 0 {
        assert(tdiv(a * b, c) == 0);
    } else {
        assert(tdiv(a * b, c) == (a * b) / c);
        vstd::arithmetic::div_mod::lemma_div_pos_is_pos(a * b, c);
        vstd::arithmetic::div_mod::lemma_div_is_ordered(a * b, a * c, c);
        vstd::arithmetic::div_mod::lemma_div_multiples_vanish(a, c);
        assert(a * c == c * a) by (nonlinear_arith);
        assert((a * c) / c == a);
    }
}

/// Magnitude and sign of a saturating fixed-point product.
pub proof fn lemma_v_mul_mag(a: int, b: int)
    ensures
        iabs(v_mul(a, b)) * (FX_SCALE as int) <= iabs(a * b),
        a >= 0 && b >= 0 ==> v_mul(a, b) >= 0,
        a <= 0 && b >= 0 ==> v_mul(a, b) <= 0,
        a >= 0 && b <= 0 ==> v_mul(a, b) <= 0,
        a <= 0 && b <= 0 ==> v_mul(a, b) >= 0,
{
    let s = FX_SCALE as int;
    lemma_tdiv_mag(a * b, s);
    let t = tdiv(a * b, s);
    lemma_sat64_mag(t);
    assert(iabs(sat64(t)) * s <= iabs(t) * s) by (nonlinear_arith)
        requires
            iabs(sat64(t)) <= iabs(t),
            s > 0,
    ;
    assert((a >= 0 && b >= 0) || (a <= 0 && b <= 0) ==> a * b >= 0) by (nonlinear_arith);
    assert((a >= 0 && b <= 0) || (a <= 0 && b >= 0) ==> a * b <= 0) by (nonlinear_arith);
}

} // verus!
