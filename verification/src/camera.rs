//! The camera: maps normalized image-plane coordinates, and a lens sample
//! for defocus blur, to a world-space ray.

use vstd::prelude::*;

use crate::fixed::fadd;
use crate::fixed::fdiv;
use crate::fixed::fmul;
use crate::fixed::fx_add;
use crate::fixed::fx_div;
use crate::fixed::fx_mul;
use crate::ray::Ray;
use crate::ray::RayV;
use crate::rng::Rng;
use crate::vec3::sample_disk_spec;
use crate::vec3::vadd;
use crate::vec3::vcross;
use crate::vec3::vdiv_s;
use crate::vec3::vscale;
use crate::vec3::vsub;
use crate::vec3::vunit;
use crate::vec3::Vec3;
use crate::vec3::V3;
use crate::vec3::SAMPLE_TRIES;

verus! {

/// Two, in the fixed-point representation.
pub const FX_TWO: i64 = 131072;

/// Mathematical model of a camera.
pub ghost struct CameraV {
    pub origin: V3,
    pub lower_left_corner: V3,
    pub horizontal: V3,
    pub vertical: V3,
    pub w: V3,
    pub u: V3,
    pub v: V3,
    pub lens_radius: int,
}

/// The camera derived from a viewing geometry: `half_height` is the
/// tangent of half the vertical field of view, already in fixed point.
pub open spec fn camera_spec(
    look_from: V3,
    look_at: V3,
    vup: V3,
    half_height: int,
    aspect_ratio: int,
    aperture: int,
    focus_dist: int,
) -> CameraV {
    let viewport_height = fadd(half_height, half_height);
    let viewport_width = fmul(aspect_ratio, viewport_height);
    let w = vunit(vsub(look_from, look_at));
    let u = vunit(vcross(vup, w));
    let v = vcross(w, u);
    let horizontal = vscale(fmul(focus_dist, viewport_width), u);
    let vertical = vscale(fmul(focus_dist, viewport_height), v);
    let lower_left_corner = vsub(
        vsub(vsub(look_from, vdiv_s(horizontal, FX_TWO as int)), vdiv_s(vertical, FX_TWO as int)),
        vscale(focus_dist, w),
    );
    CameraV {
        origin: look_from,
        lower_left_corner,
        horizontal,
        vertical,
        w,
        u,
        v,
        lens_radius: fdiv(aperture, FX_TWO as int),
    }
}

/// The ray cast toward normalized image coordinates `(s, t)`, with a lens
/// sample drawn from the random source for defocus blur.
pub open spec fn cast_spec(c: CameraV, s_coord: int, t_coord: int, rs: u64) -> (RayV, u64) {
    let smp = sample_disk_spec(rs, SAMPLE_TRIES as nat);
    let rd = vscale(c.lens_radius, smp.0);
    let offset = vadd(vscale(rd.x, c.u), vscale(rd.y, c.v));
    (
        RayV {
            orig: vadd(c.origin, offset),
            dir: vsub(
                vsub(
                    vadd(
                        vadd(c.lower_left_corner, vscale(s_coord, c.horizontal)),
                        vscale(t_coord, c.vertical),
                    ),
                    c.origin,
                ),
                offset,
            ),
        },
        smp.1,
    )
}

pub struct Camera {
    pub origin: Vec3,
    pub lower_left_corner: Vec3,
    pub horizontal: Vec3,
    pub vertical: Vec3,
    pub w: Vec3,
    pub u: Vec3,
    pub v: Vec3,
    pub lens_radius: i64,
}

impl View for Camera {
    type V = CameraV;

    open spec fn view(&self) -> CameraV {
        CameraV {
            origin: self.origin@,
            lower_left_corner: self.lower_left_corner@,
            horizontal: self.horizontal@,
            vertical: self.vertical@,
            w: self.w@,
            u: self.u@,
            v: self.v@,
            lens_radius: self.lens_radius as int,
        }
    }
}

impl Camera {
    /// Build a camera. `half_height` is the tangent of half the vertical
    /// field of view, in fixed point; the caller converts from degrees.
    pub fn new(
        look_from: Vec3,
        look_at: Vec3,
        vup: Vec3,
        half_height: i64,
        aspect_ratio: i64,
        aperture: i64,
        focus_dist: i64,
    ) -> (c: Camera)
        ensures
            c@ == camera_spec(
                look_from@,
                look_at@,
                vup@,
                half_height as int,
                aspect_ratio as int,
                aperture as int,
                focus_dist as int,
            ),
    {
        let viewport_height = fx_add(half_height, half_height);
        let viewport_width = fx_mul(aspect_ratio, viewport_height);
        let w = look_from.sub(&look_at).unit();
        let u = vup.cross(&w).unit();
        let v = w.cross(&u);
        let horizontal = u.scale(fx_mul(focus_dist, viewport_width));
        let vertical = v.scale(fx_mul(focus_dist, viewport_height));
        let lower_left_corner = look_from
            .sub(&horizontal.div_s(FX_TWO))
            .sub(&vertical.div_s(FX_TWO))
            .sub(&w.scale(focus_dist));
        Camera {
            origin: look_from,
            lower_left_corner,
            horizontal,
            vertical,
            w,
            u,
            v,
            lens_radius: fx_div(aperture, FX_TWO),
        }
    }

    /// Cast the ray toward normalized image coordinates `(s, t)`, sampling
    /// the lens for defocus blur.
    pub fn cast(&self, s: i64, t: i64, rng: &mut Rng) -> (r: Ray)
        ensures
            r@ == cast_spec(self@, s as int, t as int, old(rng).state).0,
            final(rng).state == cast_spec(self@, s as int, t as int, old(rng).state).1,
    {
        let rd = Vec3::random_in_unit_disk(rng).scale(self.lens_radius);
        let offset = self.u.scale(rd.x()).add(&self.v.scale(rd.y()));
        Ray::new(
            self.origin.add(&offset),
            self
                .lower_left_corner
                .add(&self.horizontal.scale(s))
                .add(&self.vertical.scale(t))
                .sub(&self.origin)
                .sub(&offset),
        )
    }
}

} // verus!
