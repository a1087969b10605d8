//! Two-component vectors of saturating fixed-point scalars.

use vstd::prelude::*;
use crate::fx::{
    Fx, FX_SCALE, iabs, sat64, tdiv, v_add, v_sub, v_mul, v_max, sqrt_v, lemma_tdiv_mag,
    lemma_sat64_mag,
};

verus! {

/// Model of the squared length on raw counts (saturating).
pub open spec fn len_sq_v(x: int, y: int) -> int {
    v_add(v_mul(x, x), v_mul(y, y))
}

/// Model of [`Vec2::length`] on raw counts: the floor square root of the
/// squared length, but never below either component's magnitude (the root
/// of the truncated square can fall one count short of it).
pub open spec fn length_v(x: int, y: int) -> int {
    v_max(sqrt_v(len_sq_v(x, y) * FX_SCALE), v_max(sat64(iabs(x)), sat64(iabs(y))))
}

/// Model of one axis of [`Vec2::clamp_length`] on raw counts: when the
/// length exceeds the cap, the component is rescaled by `cap / length`.
pub open spec fn clamp_axis_v(c: int, cap: int, len: int) -> int {
    if len > cap {
        sat64(tdiv(sat64(tdiv(c * cap, FX_SCALE as int)) * FX_SCALE, len))
    } else {
        c
    }
}

/// A plane vector; each component is a saturating fixed-point number.
#[derive(Clone, Copy, PartialEq, Eq, Structural, Debug)]
pub struct Vec2 {
    pub x: Fx,
    pub y: Fx,
}

impl Vec2 {
    /// The zero vector.
    pub fn zero() -> (r: Vec2)
        ensures
            r.x.raw == 0 && r.y.raw == 0,
    {
        Vec2 { x: Fx::zero(), y: Fx::zero() }
    }

    /// The vector with the given components.
    pub fn new(x: Fx, y: Fx) -> (r: Vec2)
        ensures
            r.x == x && r.y == y,
    {
        Vec2 { x, y }
    }

    /// Componentwise saturating sum.
    pub fn add(self, o: Vec2) -> (r: Vec2)
        ensures
            r.x.raw as int == v_add(self.x.raw as int, o.x.raw as int),
            r.y.raw as int == v_add(self.y.raw as int, o.y.raw as int),
    {
        Vec2 { x: self.x.add(o.x), y: self.y.add(o.y) }
    }

    /// Componentwise saturating difference.
    pub fn sub(self, o: Vec2) -> (r: Vec2)
        ensures
            r.x.raw as int == v_sub(self.x.raw as int, o.x.raw as int),
            r.y.raw as int == v_sub(self.y.raw as int, o.y.raw as int),
    {
        Vec2 { x: self.x.sub(o.x), y: self.y.sub(o.y) }
    }

    /// Both components scaled by a saturating product with `s`.
    pub fn scale(self, s: Fx) -> (r: Vec2)
        ensures
            r.x.raw as int == v_mul(self.x.raw as int, s.raw as int),
            r.y.raw as int == v_mul(self.y.raw as int, s.raw as int),
    {
        Vec2 { x: self.x.mul(s), y: self.y.mul(s) }
    }

    /// Componentwise saturating magnitude.
    pub fn abs(self) -> (r: Vec2)
        ensures
            r.x.raw as int == sat64(iabs(self.x.raw as int)),
            r.y.raw as int == sat64(iabs(self.y.raw as int)),
    {
        Vec2 { x: self.x.abs(), y: self.y.abs() }
    }

    /// Componentwise maximum.
    pub fn max(self, o: Vec2) -> (r: Vec2)
        ensures
            r.x.raw as int == v_max(self.x.raw as int, o.x.raw as int),
            r.y.raw as int == v_max(self.y.raw as int, o.y.raw as int),
    {
        Vec2 { x: self.x.max(o.x), y: self.y.max(o.y) }
    }

    /// The larger component.
    pub fn max_element(self) -> (r: Fx)
        ensures
            r.raw as int == v_max(self.x.raw as int, self.y.raw as int),
    {
        self.x.max(self.y)
    }

    /// The smaller component.
    pub fn min_element(self) -> (r: Fx)
        ensures
            r.raw as int == if self.x.raw <= self.y.raw {
                self.x.raw as int
            } else {
                self.y.raw as int
            },
    {
        self.x.min(self.y)
    }

    /// The length of the vector, by the saturating squared length and the
    /// fixed-point floor square root; never below a component's magnitude.
    pub fn length(self) -> (r: Fx)
        ensures
            r.raw as int == length_v(self.x.raw as int, self.y.raw as int),
            r.raw >= 0,
    {
        let xx: Fx = self.x.mul(self.x);
        let yy: Fx = self.y.mul(self.y);
        proof {
            lemma_square_nonneg(self.x.raw as int);
            lemma_square_nonneg(self.y.raw as int);
        }
        let sq: Fx = xx.add(yy);
        let root: Fx = sq.sqrt();
        root.max(self.x.abs()).max(self.y.abs())
    }

    /// The vector unchanged when its length is within `cap`; otherwise each
    /// component rescaled by `cap / length`, which caps both magnitudes.
    pub fn clamp_length(self, cap: Fx) -> (r: Vec2)
        requires
            cap.raw >= 0,
        ensures
            ({
                let len = length_v(self.x.raw as int, self.y.raw as int);
                r.x.raw as int == clamp_axis_v(self.x.raw as int, cap.raw as int, len)
                    && r.y.raw as int == clamp_axis_v(self.y.raw as int, cap.raw as int, len)
            }),
            iabs(r.x.raw as int) <= v_max(cap.raw as int, iabs(self.x.raw as int)),
            iabs(r.y.raw as int) <= v_max(cap.raw as int, iabs(self.y.raw as int)),
            iabs(r.x.raw as int) <= iabs(self.x.raw as int) || iabs(r.x.raw as int) <= cap.raw
                as int,
            iabs(r.y.raw as int) <= iabs(self.y.raw as int) || iabs(r.y.raw as int) <= cap.raw
                as int,
    {
        let len: Fx = self.length();
        if len.raw > cap.raw {
            let rx: Fx = self.x.mul(cap).div(len);
            let ry: Fx = self.y.mul(cap).div(len);
            proof {
                assert(iabs(self.x.raw as int) <= len.raw as int + 1);
                assert(iabs(self.y.raw as int) <= len.raw as int + 1);
                lemma_rescaled_axis_capped(self.x.raw as int, cap.raw as int, len.raw as int);
                lemma_rescaled_axis_capped(self.y.raw as int, cap.raw as int, len.raw as int);
            }
            Vec2 { x: rx, y: ry }
        } else {
            self
        }
    }
}

/// A saturated, scaled-down square is nonnegative.
pub proof fn lemma_square_nonneg(x: int)
    ensures
        v_mul(x, x) >= 0,
{
    assert(x * x >= 0) by (nonlinear_arith);
    lemma_tdiv_mag(x * x, FX_SCALE as int);
    lemma_sat64_mag(tdiv(x * x, FX_SCALE as int));
}

/// Rescaling a component by `cap / len` keeps its magnitude within `cap`
/// whenever `len` is at least the component's magnitude.
pub proof fn lemma_rescaled_axis_capped(c: int, cap: int, len: int)
    requires
        0 <= cap < len,
        iabs(c) <= len + 1,
    ensures
        iabs(sat64(tdiv(sat64(tdiv(c * cap, FX_SCALE as int)) * FX_SCALE, len))) <= cap,
{
    let s: int = FX_SCALE as int;
    let ac: int = iabs(c);
    assert(iabs(c * cap) == ac * cap) by (nonlinear_arith)
        requires
            cap >= 0,
            ac >= 0,
            c == ac || c == -ac,
            iabs(c * cap) == if c * cap >= 0 {
                c * cap
            } else {
                -(c * cap)
            },
    ;
    lemma_tdiv_mag(c * cap, s);
    let m: int = tdiv(c * cap, s);
    // |m| * s <= |c| * cap, so |sat64(m)| * s <= |c| * cap as well.
    lemma_sat64_mag(m);
    let ms: int = sat64(m);
    assert(iabs(ms) * s <= ac * cap) by (nonlinear_arith)
        requires
            iabs(ms) <= iabs(m),
            iabs(m) * s <= ac * cap,
            s > 0,
            iabs(ms) >= 0,
            iabs(m) >= 0,
    ;
    lemma_tdiv_mag(ms * s, len);
    let q: int = tdiv(ms * s, len);
    let ams: int = iabs(ms);
    assert(iabs(ms * s) == ams * s) by (nonlinear_arith)
        requires
            s > 0,
            ams >= 0,
            ms == ams || ms == -ams,
            iabs(ms * s) == if ms * s >= 0 {
                ms * s
            } else {
                -(ms * s)
            },
    ;
    // |q| * len <= |ms| * s <= |c| * cap <= (len + 1) * cap, hence |q| <= cap.
    assert(ac * cap <= len * cap + cap) by (nonlinear_arith)
        requires
            ac <= len + 1,
            cap >= 0,
    ;
    assert(iabs(q) <= cap) by (nonlinear_arith)
        requires
            iabs(q) * len <= len * cap + cap,
            0 <= cap < len,
            iabs(q) >= 0,
    ;
    lemma_sat64_mag(q);
}

} // verus!
