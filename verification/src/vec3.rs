//! Three-component fixed-point vectors, used both for spatial geometry and,
//! aliased, for RGB colors.
//!
//! Normalizing a zero-length vector yields the zero vector by documented
//! policy: a degenerate direction then contributes nothing downstream
//! (every dot product with it is zero) instead of corrupting the color sum.

use vstd::prelude::*;

use crate::fixed::fx_add;
use crate::fixed::fx_div;
use crate::fixed::fx_mul;
use crate::fixed::fx_neg;
use crate::fixed::fx_sqrt;
use crate::fixed::fx_sub;
use crate::fixed::fxa;
use crate::fixed::fxd;
use crate::fixed::fxm;
use crate::fixed::fxn;
use crate::fixed::fxs;
use crate::fixed::fxsq;
use crate::fixed::iabs;
use crate::fixed::spec_fx_mul;

verus! {

/// A 3-component fixed-point vector; also an RGB color.
#[derive(Clone, Copy, PartialEq, Eq, Structural, Debug)]
pub struct Vec3 {
    pub x: i64,
    pub y: i64,
    pub z: i64,
}

/// The zero vector, which is also the color black.
pub open spec fn vec3_zero() -> Vec3 {
    (Vec3 { x: 0, y: 0, z: 0 })
}

/// Component-wise saturating sum.
pub open spec fn spec_vadd(a: Vec3, b: Vec3) -> Vec3 {
    (Vec3 { x: fxa(a.x, b.x), y: fxa(a.y, b.y), z: fxa(a.z, b.z) })
}

/// Component-wise saturating difference.
pub open spec fn spec_vsub(a: Vec3, b: Vec3) -> Vec3 {
    (Vec3 { x: fxs(a.x, b.x), y: fxs(a.y, b.y), z: fxs(a.z, b.z) })
}

/// Component-wise saturating negation.
pub open spec fn spec_vneg(a: Vec3) -> Vec3 {
    (Vec3 { x: fxn(a.x), y: fxn(a.y), z: fxn(a.z) })
}

/// The vector scaled by a fixed-point factor.
pub open spec fn spec_vscale(a: Vec3, k: i64) -> Vec3 {
    (Vec3 { x: fxm(a.x, k), y: fxm(a.y, k), z: fxm(a.z, k) })
}

/// The vector divided component-wise by a fixed-point scalar.
pub open spec fn spec_vdivs(a: Vec3, k: i64) -> Vec3 {
    (Vec3 { x: fxd(a.x, k), y: fxd(a.y, k), z: fxd(a.z, k) })
}

/// Component-wise product: the color-filter operation of the shading model.
pub open spec fn spec_cmul(a: Vec3, b: Vec3) -> Vec3 {
    (Vec3 { x: fxm(a.x, b.x), y: fxm(a.y, b.y), z: fxm(a.z, b.z) })
}

/// The fixed-point dot product.
pub open spec fn spec_dot(a: Vec3, b: Vec3) -> i64 {
    fxa(fxa(fxm(a.x, b.x), fxm(a.y, b.y)), fxm(a.z, b.z))
}

/// The squared length.
pub open spec fn spec_len2(a: Vec3) -> i64 {
    spec_dot(a, a)
}

/// The length: the fixed-point square root of the squared length.
pub open spec fn spec_norm(a: Vec3) -> i64 {
    fxsq(spec_len2(a))
}

/// The unit vector in the direction of `a`, or zero when `a` has length
/// zero (the documented degenerate-direction policy).
pub open spec fn spec_normalize(a: Vec3) -> Vec3 {
    let n = spec_norm(a);
    if n == 0 {
        vec3_zero()
    } else {
        spec_vdivs(a, n)
    }
}

/// A square is never negative, even after rescaling and saturation.
pub proof fn lemma_fxm_square_nonneg(a: i64)
    ensures
        fxm(a, a) >= 0,
{
    let q = (iabs(a as int) * iabs(a as int)) / 65536;
    assert(iabs(a as int) * iabs(a as int) >= 0) by (nonlinear_arith)
        requires
            iabs(a as int) >= 0,
    ;
    assert(q >= 0);
    assert(spec_fx_mul(a as int, a as int) == if q > i64::MAX as int {
        i64::MAX as int
    } else {
        q
    });
}

/// Squared lengths are never negative.
pub proof fn lemma_len2_nonneg(a: Vec3)
    ensures
        spec_len2(a) >= 0,
{
    lemma_fxm_square_nonneg(a.x);
    lemma_fxm_square_nonneg(a.y);
    lemma_fxm_square_nonneg(a.z);
}

impl Vec3 {
    /// Builds a vector from its components.
    pub fn new(x: i64, y: i64, z: i64) -> (r: Vec3)
        ensures
            r == (Vec3 { x, y, z }),
    {
        Vec3 { x, y, z }
    }

    /// The zero vector.
    pub fn zero() -> (r: Vec3)
        ensures
            r == vec3_zero(),
    {
        Vec3 { x: 0, y: 0, z: 0 }
    }

    /// Component-wise saturating sum.
    pub fn plus(&self, o: &Vec3) -> (r: Vec3)
        ensures
            r == spec_vadd(*self, *o),
    {
        Vec3 { x: fx_add(self.x, o.x), y: fx_add(self.y, o.y), z: fx_add(self.z, o.z) }
    }

    /// Component-wise saturating difference.
    pub fn minus(&self, o: &Vec3) -> (r: Vec3)
        ensures
            r == spec_vsub(*self, *o),
    {
        Vec3 { x: fx_sub(self.x, o.x), y: fx_sub(self.y, o.y), z: fx_sub(self.z, o.z) }
    }

    /// Component-wise saturating negation.
    pub fn neg(&self) -> (r: Vec3)
        ensures
            r == spec_vneg(*self),
    {
        Vec3 { x: fx_neg(self.x), y: fx_neg(self.y), z: fx_neg(self.z) }
    }

    /// The vector scaled by a fixed-point factor.
    pub fn scale(&self, k: i64) -> (r: Vec3)
        ensures
            r == spec_vscale(*self, k),
    {
        Vec3 { x: fx_mul(self.x, k), y: fx_mul(self.y, k), z: fx_mul(self.z, k) }
    }

    /// The vector divided component-wise by a fixed-point scalar.
    pub fn divs(&self, k: i64) -> (r: Vec3)
        ensures
            r == spec_vdivs(*self, k),
    {
        Vec3 { x: fx_div(self.x, k), y: fx_div(self.y, k), z: fx_div(self.z, k) }
    }

    /// Component-wise product.
    pub fn cmul(&self, o: &Vec3) -> (r: Vec3)
        ensures
            r == spec_cmul(*self, *o),
    {
        Vec3 { x: fx_mul(self.x, o.x), y: fx_mul(self.y, o.y), z: fx_mul(self.z, o.z) }
    }

    /// The fixed-point dot product.
    pub fn dot(&self, o: &Vec3) -> (r: i64)
        ensures
            r == spec_dot(*self, *o),
    {
        fx_add(fx_add(fx_mul(self.x, o.x), fx_mul(self.y, o.y)), fx_mul(self.z, o.z))
    }

    /// The squared length.
    pub fn norm2(&self) -> (r: i64)
        ensures
            r == spec_len2(*self),
            r >= 0,
    {
        proof {
            lemma_len2_nonneg(*self);
        }
        self.dot(self)
    }

    /// The length.
    pub fn norm(&self) -> (r: i64)
        ensures
            r == spec_norm(*self),
            r >= 0,
    {
        let l = self.norm2();
        fx_sqrt(l)
    }

    /// The unit vector in this direction, or zero for a zero-length vector.
    pub fn normalize(&self) -> (r: Vec3)
        ensures
            r == spec_normalize(*self),
    {
        let n = self.norm();
        if n == 0 {
            Vec3::zero()
        } else {
            self.divs(n)
        }
    }
}

} // verus!
