//! The recursive radiance estimator: what color one ray contributes.

use vstd::prelude::*;

use crate::fixed::fadd;
use crate::fixed::fmul;
use crate::fixed::fsub;
use crate::fixed::fx_add;
use crate::fixed::fx_mul;
use crate::fixed::fx_sub;
use crate::fixed::FX_MAX;
use crate::fixed::FX_ONE;
use crate::material::scatter_spec;
use crate::primitive::lemma_world_hit_material_wf;
use crate::primitive::world_hit_spec;
use crate::primitive::world_wf;
use crate::primitive::SphereV;
use crate::primitive::World;
use crate::ray::Ray;
use crate::ray::RayV;
use crate::rng::Rng;
use crate::vec3::vadd;
use crate::vec3::vmul;
use crate::vec3::vscale;
use crate::vec3::vsub;
use crate::vec3::vunit;
use crate::vec3::vwf;
use crate::vec3::vzero;
use crate::vec3::Vec3;
use crate::vec3::V3;

verus! {

/// One half, in the fixed-point representation.
pub const FX_HALF: i64 = 32768;

/// The green channel of the sky color `(0.5, 0.7, 1.0)`: seven tenths,
/// rounded down to the representation.
pub const SKY_GREEN: i64 = 45875;

/// Lower bound of the hit interval for scattered rays: about a thousandth,
/// guarding against self-intersection at the origin of a new ray.
pub const T_MIN_EPS: i64 = 65;

/// The sky gradient a missing ray returns: white at the horizon blending
/// to sky blue straight up, interpolated by the upward component of the
/// unit direction.
pub open spec fn background_spec(ray: RayV) -> V3 {
    let t = fmul(FX_HALF as int, fadd(vunit(ray.dir).y, FX_ONE as int));
    vadd(
        vscale(fsub(FX_ONE as int, t), V3 { x: FX_ONE as int, y: FX_ONE as int, z: FX_ONE as int }),
        vscale(t, V3 { x: FX_HALF as int, y: SKY_GREEN as int, z: FX_ONE as int }),
    )
}

/// The radiance estimate for one ray: black at depth zero; on a hit, the
/// scattered ray's estimate attenuated by the material's color, or black
/// when absorbed; on a miss, the sky gradient.
pub open spec fn ray_color_spec(ray: RayV, w: Seq<SphereV>, depth: u32, s: u64) -> (V3, u64)
    decreases depth,
{
    if depth == 0 {
        (vzero(), s)
    } else {
        match world_hit_spec(w, ray, T_MIN_EPS as int, FX_MAX as int) {
            Some(hit) => {
                let sc = scatter_spec(hit.material, ray, hit, s);
                match sc.0.ray {
                    Some(r2) => {
                        let rec = ray_color_spec(r2, w, (depth - 1) as u32, sc.1);
                        (vmul(sc.0.color, rec.0), rec.1)
                    },
                    None => (vzero(), sc.1),
                }
            },
            None => (background_spec(ray), s),
        }
    }
}

/// The sky gradient of a ray that hits nothing.
fn background(ray: &Ray) -> (c: Vec3)
    ensures
        c@ == background_spec(ray@),
        vwf(c@),
{
    let unit_dir = ray.dir.unit();
    let t = fx_mul(FX_HALF, fx_add(unit_dir.y(), FX_ONE));
    let white = Vec3::new(FX_ONE, FX_ONE, FX_ONE);
    let sky = Vec3::new(FX_HALF, SKY_GREEN, FX_ONE);
    white.scale(fx_sub(FX_ONE, t)).add(&sky.scale(t))
}

/// Estimate the color one ray contributes, following scattered rays up to
/// `depth` bounces.
pub fn ray_color(ray: &Ray, world: &World, depth: u32, rng: &mut Rng) -> (c: Vec3)
    requires
        world_wf(world@),
    ensures
        c@ == ray_color_spec(ray@, world@, depth, old(rng).state).0,
        final(rng).state == ray_color_spec(ray@, world@, depth, old(rng).state).1,
        vwf(c@),
        vwf(ray@.dir) ==> crate::vec3::color_wf(c@),
    decreases depth,
{
    if depth == 0 {
        return Vec3::new(0, 0, 0);
    }
    let c = match world.hit(ray, T_MIN_EPS, FX_MAX) {
        Some(hit) => {
            proof {
                lemma_world_hit_material_wf(world@, ray@, T_MIN_EPS as int, FX_MAX as int);
            }
            let sc = hit.material.scatter(ray, &hit, rng);
            match sc.ray {
                Some(r2) => {
                    let rec = ray_color(&r2, world, depth - 1, rng);
                    sc.color.mul(&rec)
                },
                None => Vec3::new(0, 0, 0),
            }
        },
        None => background(ray),
    };
    proof {
        if vwf(ray@.dir) {
            lemma_ray_color_in_range(ray@, world@, depth, old(rng).state);
        }
    }
    c
}

/// The sky gradient is a color: with a representable direction, the unit
/// direction's components stay within one, the interpolation parameter
/// stays within `[0, 1]`, and each blended channel stays within `[0, 1]`.
pub proof fn lemma_background_in_range(ray: RayV)
    requires
        crate::vec3::vwf(ray.dir),
    ensures
        crate::vec3::color_wf(background_spec(ray)),
{
    crate::vec3::lemma_vunit_in_unit_range(ray.dir);
    let v = fadd(vunit(ray.dir).y, FX_ONE as int);
    assert(0 <= v <= 131072);
    let t = fmul(FX_HALF as int, v);
    assert(0 <= 32768 * v && 32768 * v <= 32768 * 131072 && 32768 * 131072 == 65536
        * 65536) by (nonlinear_arith)
        requires
            0 <= v <= 131072,
    ;
    vstd::arithmetic::div_mod::lemma_div_pos_is_pos(32768 * v, 65536int);
    vstd::arithmetic::div_mod::lemma_div_is_ordered(32768 * v, 65536int * 65536int, 65536int);
    vstd::arithmetic::div_mod::lemma_div_multiples_vanish(65536, 65536int);
    assert(0 <= t <= FX_ONE);
    let omt = fsub(FX_ONE as int, t);
    assert(0 <= omt <= FX_ONE && omt + t == FX_ONE);
    crate::fixed::lemma_fmul_one_right(omt);
    crate::fixed::lemma_fmul_one_right(t);
    crate::fixed::lemma_fmul_unit_interval(t, FX_HALF as int);
    crate::fixed::lemma_fmul_unit_interval(t, SKY_GREEN as int);
}

/// The radiance estimate is a color: with a well-formed scene — every
/// albedo a color, every radius positive — and a representable ray
/// direction, every channel of the estimate lies in `[0, 1]`: the
/// background does, absorption and depth exhaustion give black, and each
/// bounce only attenuates.
pub proof fn lemma_ray_color_in_range(ray: RayV, w: Seq<SphereV>, depth: u32, s: u64)
    requires
        world_wf(w),
        crate::vec3::vwf(ray.dir),
    ensures
        crate::vec3::color_wf(ray_color_spec(ray, w, depth, s).0),
    decreases depth,
{
    if depth > 0 {
        match world_hit_spec(w, ray, T_MIN_EPS as int, FX_MAX as int) {
            Some(hit) => {
                lemma_world_hit_material_wf(w, ray, T_MIN_EPS as int, FX_MAX as int);
                let sc = scatter_spec(hit.material, ray, hit, s);
                assert(crate::vec3::color_wf(sc.0.color));
                match sc.0.ray {
                    Some(r2) => {
                        assert(crate::vec3::vwf(r2.dir));
                        lemma_ray_color_in_range(r2, w, (depth - 1) as u32, sc.1);
                        let rec = ray_color_spec(r2, w, (depth - 1) as u32, sc.1);
                        crate::fixed::lemma_fmul_unit_interval(sc.0.color.x, rec.0.x);
                        crate::fixed::lemma_fmul_unit_interval(sc.0.color.y, rec.0.y);
                        crate::fixed::lemma_fmul_unit_interval(sc.0.color.z, rec.0.z);
                    },
                    None => {},
                }
            },
            None => {
                lemma_background_in_range(ray);
            },
        }
    }
}

/// At depth zero the estimator returns exactly black, whatever the ray,
/// the scene and the state of the random source, and consumes nothing.
pub proof fn lemma_depth_zero_is_black(ray: RayV, w: Seq<SphereV>, s: u64)
    ensures
        ray_color_spec(ray, w, 0, s) == (vzero(), s),
{
}

/// A ray cast into an empty scene returns the sky gradient, whatever the
/// remaining depth, and consumes no randomness.
pub proof fn lemma_empty_scene_is_background(ray: RayV, depth: u32, s: u64)
    requires
        depth > 0,
    ensures
        ray_color_spec(ray, Seq::<SphereV>::empty(), depth, s) == (background_spec(ray), s),
{
}

} // verus!
