//! A parametric line: origin plus `t` times direction, the unit of light
//! transport.

use vstd::prelude::*;

use crate::fixed::fmul;
use crate::fixed::fx_ok;
use crate::vec3::vadd;
use crate::vec3::vscale;
use crate::vec3::vsub;
use crate::vec3::vwf;
use crate::vec3::Vec3;
use crate::vec3::V3;

verus! {

/// Mathematical model of a ray.
pub ghost struct RayV {
    pub orig: V3,
    pub dir: V3,
}

/// The point at parameter `t` along the ray.
pub open spec fn ray_at(r: RayV, t: int) -> V3 {
    vadd(r.orig, vscale(t, r.dir))
}

#[derive(Clone, Copy, Debug)]
pub struct Ray {
    pub orig: Vec3,
    pub dir: Vec3,
}

impl View for Ray {
    type V = RayV;

    open spec fn view(&self) -> RayV {
        RayV { orig: self.orig@, dir: self.dir@ }
    }
}

impl Ray {
    pub fn new(orig: Vec3, dir: Vec3) -> (r: Self)
        ensures
            r@ == (RayV { orig: orig@, dir: dir@ }),
    {
        Ray { orig, dir }
    }

    pub fn at(&self, t: i64) -> (r: Vec3)
        ensures
            r@ == ray_at(self@, t as int),
            vwf(r@),
    {
        self.orig.add(&self.dir.scale(t))
    }
}

/// Whether evaluating the ray at `t` saturates no component; where it does
/// not, the fixed-point point is the exact integer sum.
pub open spec fn at_in_range(r: RayV, t: int) -> bool {
    &&& fx_ok(r.orig.x + fmul(t, r.dir.x))
    &&& fx_ok(r.orig.y + fmul(t, r.dir.y))
    &&& fx_ok(r.orig.z + fmul(t, r.dir.z))
}

/// At parameter zero a ray sits at its origin.
pub proof fn lemma_ray_at_zero(r: RayV)
    requires
        vwf(r.orig),
    ensures
        ray_at(r, 0) == r.orig,
{
    assert(0 * r.dir.x == 0);
    assert(0 * r.dir.y == 0);
    assert(0 * r.dir.z == 0);
}

/// Points along a ray are affine in the parameter: the difference of the
/// points at `t1` and `t2` is the difference of the scaled directions, with
/// the origin cancelled exactly wherever no component saturates.
pub proof fn lemma_ray_affine(r: RayV, t1: int, t2: int)
    requires
        at_in_range(r, t1),
        at_in_range(r, t2),
    ensures
        vsub(ray_at(r, t1), ray_at(r, t2)) == vsub(vscale(t1, r.dir), vscale(t2, r.dir)),
{
}

} // verus!
