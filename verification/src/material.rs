//! The scattering behaviors a surface can carry: diffuse, metallic and
//! refractive, a closed variant set with one contract per variant.

use vstd::prelude::*;

use crate::fixed::fadd;
use crate::fixed::fdiv;
use crate::fixed::fmin;
use crate::fixed::fmul;
use crate::fixed::fneg;
use crate::fixed::fsqrt;
use crate::fixed::fsub;
use crate::fixed::fabs;
use crate::fixed::fx_abs;
use crate::fixed::fx_add;
use crate::fixed::fx_div;
use crate::fixed::fx_min;
use crate::fixed::fx_mul;
use crate::fixed::fx_neg;
use crate::fixed::fx_sqrt;
use crate::fixed::fx_sub;
use crate::fixed::FX_ONE;
use crate::primitive::Hit;
use crate::primitive::HitV;
use crate::ray::Ray;
use crate::ray::RayV;
use crate::rng::next_state;
use crate::rng::rand_fx;
use crate::rng::Rng;
use crate::vec3::color_wf;
use crate::vec3::rand_unit_spec;
use crate::vec3::sample_ball_spec;
use crate::vec3::vadd;
use crate::vec3::vdot;
use crate::vec3::vneg;
use crate::vec3::vreflect;
use crate::vec3::vrefract;
use crate::vec3::vscale;
use crate::vec3::vunit;
use crate::vec3::vwf;
use crate::vec3::Vec3;
use crate::vec3::V3;
use crate::vec3::SAMPLE_TRIES;

verus! {

/// What a material does to a ray that struck a surface: an attenuation
/// color, and either a continuation ray or absorption (`None`).
#[derive(Clone, Copy, Debug)]
pub struct Scatter {
    pub color: Vec3,
    pub ray: Option<Ray>,
}

/// Mathematical model of a scatter result.
pub ghost struct ScatterV {
    pub color: V3,
    pub ray: Option<RayV>,
}

impl View for Scatter {
    type V = ScatterV;

    open spec fn view(&self) -> ScatterV {
        ScatterV {
            color: self.color@,
            ray: match self.ray {
                Some(r) => Some(r@),
                None => None,
            },
        }
    }
}

/// Diffuse reflectance.
#[derive(Clone, Copy, Debug)]
pub struct Lambertian {
    pub albedo: Vec3,
}

/// Specular reflectance with a random perturbation of the mirror direction.
#[derive(Clone, Copy, Debug)]
pub struct Metal {
    pub albedo: Vec3,
    pub fuzz: i64,
}

/// A transparent refractive material, with no tint of its own.
#[derive(Clone, Copy, Debug)]
pub struct Dielectric {
    pub ir: i64,
}

/// The scattering behavior attached to a surface.
#[derive(Clone, Copy, Debug)]
pub enum Material {
    Lambertian(Lambertian),
    Metal(Metal),
    Dielectric(Dielectric),
}

/// Mathematical model of a material.
pub ghost enum MaterialV {
    Lambertian { albedo: V3 },
    Metal { albedo: V3, fuzz: int },
    Dielectric { ir: int },
}

impl View for Material {
    type V = MaterialV;

    open spec fn view(&self) -> MaterialV {
        match self {
            Material::Lambertian(l) => MaterialV::Lambertian { albedo: l.albedo@ },
            Material::Metal(m) => MaterialV::Metal { albedo: m.albedo@, fuzz: m.fuzz as int },
            Material::Dielectric(d) => MaterialV::Dielectric { ir: d.ir as int },
        }
    }
}

/// The parameter ranges the scattering formulas assume: albedos with every
/// channel in `[0, 1]`, a metal's fuzz in `[0, 1]`, a dielectric's
/// refractive index positive.
pub open spec fn mat_wf(m: MaterialV) -> bool {
    match m {
        MaterialV::Lambertian { albedo } => color_wf(albedo),
        MaterialV::Metal { albedo, fuzz } => color_wf(albedo) && 0 <= fuzz <= FX_ONE,
        MaterialV::Dielectric { ir } => ir > 0,
    }
}

/// Clamp a roughness parameter into `[0, 1]`.
pub open spec fn clamp01(f: int) -> int {
    if f < 0 {
        0
    } else if f > FX_ONE {
        FX_ONE as int
    } else {
        f
    }
}

impl Lambertian {
    pub fn new(albedo: Vec3) -> (r: Material)
        requires
            color_wf(albedo@),
        ensures
            r@ == (MaterialV::Lambertian { albedo: albedo@ }),
            mat_wf(r@),
    {
        Material::Lambertian(Lambertian { albedo })
    }
}

impl Metal {
    /// The fuzz parameter is clamped into `[0, 1]`.
    pub fn new(albedo: Vec3, fuzz: i64) -> (r: Material)
        requires
            color_wf(albedo@),
        ensures
            r@ == (MaterialV::Metal { albedo: albedo@, fuzz: clamp01(fuzz as int) }),
            mat_wf(r@),
    {
        let f = if fuzz < 0 {
            0
        } else if fuzz > FX_ONE {
            FX_ONE
        } else {
            fuzz
        };
        Material::Metal(Metal { albedo, fuzz: f })
    }
}

impl Dielectric {
    pub fn new(ir: i64) -> (r: Material)
        requires
            ir > 0,
        ensures
            r@ == (MaterialV::Dielectric { ir: ir as int }),
            mat_wf(r@),
    {
        Material::Dielectric(Dielectric { ir })
    }
}

/// Diffuse scattering: a ray from the hit point toward the normal plus a
/// random unit direction, attenuated by the albedo.
pub open spec fn lambertian_scatter_spec(albedo: V3, hit: HitV, s: u64) -> (ScatterV, u64) {
    let r = rand_unit_spec(s);
    (
        ScatterV {
            color: albedo,
            ray: Some(RayV { orig: hit.p, dir: vadd(hit.normal, r.0) }),
        },
        r.1,
    )
}

/// Metallic scattering: the mirror reflection of the incoming unit
/// direction, perturbed by fuzz times a unit-ball sample; absorbed when the
/// perturbed direction leaves the surface's hemisphere.
pub open spec fn metal_scatter_spec(albedo: V3, fuzz: int, ray: RayV, hit: HitV, s: u64) -> (
    ScatterV,
    u64,
) {
    let smp = sample_ball_spec(s, SAMPLE_TRIES as nat);
    let dir = vadd(vreflect(vunit(ray.dir), hit.normal), vscale(fuzz, smp.0));
    (
        ScatterV {
            color: albedo,
            ray: if vdot(dir, hit.normal) > 0 {
                Some(RayV { orig: hit.p, dir })
            } else {
                None
            },
        },
        smp.1,
    )
}

/// Schlick's approximation of the Fresnel reflectance coefficient.
pub open spec fn reflectance_spec(cosine: int, refraction_ratio: int) -> int {
    let r0 = fdiv(fsub(FX_ONE as int, refraction_ratio), fadd(FX_ONE as int, refraction_ratio));
    let r0sq = fmul(r0, r0);
    fadd(r0sq, fmul(fsub(FX_ONE as int, r0sq), pow5(fsub(FX_ONE as int, cosine))))
}

/// The fifth fixed-point power.
pub open spec fn pow5(x: int) -> int {
    fmul(fmul(fmul(fmul(x, x), x), x), x)
}

/// The refraction ratio a dielectric applies: the reciprocal of its index
/// when the ray enters the medium, the index itself when it exits.
pub open spec fn dielectric_ratio(ir: int, front_face: bool) -> int {
    if front_face {
        fdiv(FX_ONE as int, ir)
    } else {
        ir
    }
}

/// Dielectric scattering: refract by Snell's law, except under total
/// internal reflection or a reflectance draw, where the ray reflects; the
/// draw is consumed only when refraction is possible. Always scatters, with
/// the identity color.
pub open spec fn dielectric_scatter_spec(ir: int, ray: RayV, hit: HitV, s: u64) -> (ScatterV, u64) {
    let ratio = dielectric_ratio(ir, hit.front_face);
    let unit_dir = vunit(ray.dir);
    let cos_th = fmin(vdot(vneg(unit_dir), hit.normal), FX_ONE as int);
    let sin_th = fsqrt(fabs(fsub(FX_ONE as int, fmul(cos_th, cos_th))));
    if fmul(ratio, sin_th) > FX_ONE {
        (
            ScatterV {
                color: V3 { x: FX_ONE as int, y: FX_ONE as int, z: FX_ONE as int },
                ray: Some(RayV { orig: hit.p, dir: vreflect(unit_dir, hit.normal) }),
            },
            s,
        )
    } else {
        let draw = rand_fx(s, 0, FX_ONE as int);
        let dir = if reflectance_spec(cos_th, ratio) > draw {
            vreflect(unit_dir, hit.normal)
        } else {
            vrefract(unit_dir, hit.normal, ratio)
        };
        (
            ScatterV {
                color: V3 { x: FX_ONE as int, y: FX_ONE as int, z: FX_ONE as int },
                ray: Some(RayV { orig: hit.p, dir }),
            },
            next_state(s),
        )
    }
}

/// One material's scattering, by variant.
pub open spec fn scatter_spec(m: MaterialV, ray: RayV, hit: HitV, s: u64) -> (ScatterV, u64) {
    match m {
        MaterialV::Lambertian { albedo } => lambertian_scatter_spec(albedo, hit, s),
        MaterialV::Metal { albedo, fuzz } => metal_scatter_spec(albedo, fuzz, ray, hit, s),
        MaterialV::Dielectric { ir } => dielectric_scatter_spec(ir, ray, hit, s),
    }
}

/// A diffuse material always scatters: its result always carries a
/// continuation ray, from the hit point.
pub proof fn lemma_lambertian_always_scatters(albedo: V3, hit: HitV, s: u64)
    ensures
        lambertian_scatter_spec(albedo, hit, s).0.ray is Some,
        lambertian_scatter_spec(albedo, hit, s).0.ray.unwrap().orig == hit.p,
        lambertian_scatter_spec(albedo, hit, s).0.color == albedo,
{
}

/// A dielectric always scatters — reflection and refraction both continue
/// the ray — and never tints it: the attenuation is the identity color.
pub proof fn lemma_dielectric_always_scatters(ir: int, ray: RayV, hit: HitV, s: u64)
    ensures
        dielectric_scatter_spec(ir, ray, hit, s).0.ray is Some,
        dielectric_scatter_spec(ir, ray, hit, s).0.color == (V3 {
            x: FX_ONE as int,
            y: FX_ONE as int,
            z: FX_ONE as int,
        }),
{
}

/// Metal with zero fuzz is a perfect mirror: the perturbation vanishes, so
/// whenever the scattered ray is accepted its direction is exactly the
/// reflection of the incoming unit direction about the hit normal; the
/// attenuation is the albedo either way.
pub proof fn lemma_metal_zero_fuzz_is_mirror(albedo: V3, ray: RayV, hit: HitV, s: u64)
    ensures
        ({
            let sc = metal_scatter_spec(albedo, 0, ray, hit, s).0;
            &&& sc.color == albedo
            &&& (sc.ray is Some ==> sc.ray.unwrap().dir == vreflect(vunit(ray.dir), hit.normal))
            &&& (sc.ray is Some ==> sc.ray.unwrap().orig == hit.p)
        }),
{
    let smp = sample_ball_spec(s, SAMPLE_TRIES as nat);
    assert(vscale(0, smp.0) == crate::vec3::vzero());
    let reflected = vreflect(vunit(ray.dir), hit.normal);
    assert(vadd(reflected, crate::vec3::vzero()) == reflected);
}

/// A dielectric with refractive index one applies refraction ratio one on
/// both faces, and — as long as the incidence cosine is geometrically
/// meaningful, at least minus one — its total-internal-reflection test
/// never fires: `sin` stays within one, and one times `sin` is `sin`.
pub proof fn lemma_unit_index_never_reflects_totally(ray: RayV, hit: HitV)
    requires
        vdot(vneg(vunit(ray.dir)), hit.normal) >= -(FX_ONE as int),
    ensures
        dielectric_ratio(FX_ONE as int, hit.front_face) == FX_ONE as int,
        ({
            let cos_th = fmin(vdot(vneg(vunit(ray.dir)), hit.normal), FX_ONE as int);
            let sin_th = fsqrt(fabs(fsub(FX_ONE as int, fmul(cos_th, cos_th))));
            !(fmul(FX_ONE as int, sin_th) > FX_ONE)
        }),
{
    let cos_th = fmin(vdot(vneg(vunit(ray.dir)), hit.normal), FX_ONE as int);
    assert(cos_th * cos_th <= 65536 * 65536) by (nonlinear_arith)
        requires
            -65536 <= cos_th <= 65536,
    ;
    assert(cos_th * cos_th >= 0) by (nonlinear_arith);
    let csq = fmul(cos_th, cos_th);
    assert(0 <= csq <= FX_ONE) by {
        vstd::arithmetic::div_mod::lemma_div_is_ordered(cos_th * cos_th, 65536int * 65536int, 65536int);
        vstd::arithmetic::div_mod::lemma_div_multiples_vanish(65536, 65536int);
    }
    let arg = fabs(fsub(FX_ONE as int, csq));
    assert(0 <= arg <= FX_ONE);
    crate::fixed::lemma_fsqrt_le_one(arg);
    crate::fixed::lemma_fmul_one(fsqrt(arg));
}

/// A dielectric with refractive index one passes a head-on ray straight
/// through: when the incoming unit direction is the exact opposite of the
/// unit hit normal, the reflectance is zero, so whatever the random draw
/// the ray refracts, and refraction with ratio one leaves the unit
/// direction unchanged.
pub proof fn lemma_unit_index_head_on_passthrough(ray: RayV, hit: HitV, s: u64)
    requires
        vwf(hit.normal),
        crate::vec3::vlen_sq(hit.normal) == FX_ONE,
        vunit(ray.dir) == vneg(hit.normal),
    ensures
        dielectric_scatter_spec(FX_ONE as int, ray, hit, s).0.ray.unwrap().dir == vunit(ray.dir),
{
    let n = hit.normal;
    assert(vneg(vunit(ray.dir)) == n);
    let cos_th = fmin(vdot(vneg(vunit(ray.dir)), n), FX_ONE as int);
    assert(cos_th == FX_ONE as int);
    crate::fixed::lemma_fmul_one(FX_ONE as int);
    crate::fixed::lemma_fmul_one(0);
    assert(fsub(FX_ONE as int, fmul(cos_th, cos_th)) == 0);
    assert(fsqrt(fabs(0)) == 0);
    assert(reflectance_spec(cos_th, FX_ONE as int) == 0);
    crate::vec3::lemma_vrefract_unit_ratio_head_on(n);
}

/// Schlick's approximation for reflectance.
fn reflectance(cosine: i64, refraction_ratio: i64) -> (r: i64)
    requires
        fadd(FX_ONE as int, refraction_ratio as int) != 0,
    ensures
        r as int == reflectance_spec(cosine as int, refraction_ratio as int),
{
    let r0 = fx_div(fx_sub(FX_ONE, refraction_ratio), fx_add(FX_ONE, refraction_ratio));
    let r0sq = fx_mul(r0, r0);
    let base = fx_sub(FX_ONE, cosine);
    let fifth = fx_mul(fx_mul(fx_mul(fx_mul(base, base), base), base), base);
    fx_add(r0sq, fx_mul(fx_sub(FX_ONE, r0sq), fifth))
}

impl Material {
    /// Whether the material's parameters lie in the ranges the scattering
    /// formulas assume.
    pub fn is_well_formed(&self) -> (r: bool)
        ensures
            r == mat_wf(self@),
    {
        match self {
            Material::Lambertian(l) => l.albedo.is_color(),
            Material::Metal(m) => m.albedo.is_color() && 0 <= m.fuzz && m.fuzz <= FX_ONE,
            Material::Dielectric(d) => d.ir > 0,
        }
    }

    /// Scatter an incoming ray at a hit, consuming randomness from `rng`.
    pub fn scatter(&self, ray: &Ray, hit: &Hit, rng: &mut Rng) -> (s: Scatter)
        requires
            mat_wf(self@),
        ensures
            s@ == scatter_spec(self@, ray@, hit@, old(rng).state).0,
            final(rng).state == scatter_spec(self@, ray@, hit@, old(rng).state).1,
    {
        match self {
            Material::Lambertian(l) => {
                let dir = hit.normal.add(&Vec3::random_unit(rng));
                Scatter { color: l.albedo, ray: Some(Ray::new(hit.p, dir)) }
            },
            Material::Metal(m) => {
                let reflected = Vec3::reflect(&ray.dir.unit(), &hit.normal);
                let dir = reflected.add(&Vec3::random_in_unit_sphere(rng).scale(m.fuzz));
                Scatter {
                    color: m.albedo,
                    ray: if dir.dot(&hit.normal) > 0 {
                        Some(Ray::new(hit.p, dir))
                    } else {
                        None
                    },
                }
            },
            Material::Dielectric(d) => {
                let ratio = if hit.front_face {
                    fx_div(FX_ONE, d.ir)
                } else {
                    d.ir
                };
                let unit_dir = ray.dir.unit();
                let cos_th = fx_min(unit_dir.neg().dot(&hit.normal), FX_ONE);
                let sin_th = fx_sqrt(fx_abs(fx_sub(FX_ONE, fx_mul(cos_th, cos_th))));
                let dir = if fx_mul(ratio, sin_th) > FX_ONE {
                    Vec3::reflect(&unit_dir, &hit.normal)
                } else {
                    proof {
                        assert(fadd(FX_ONE as int, ratio as int) != 0);
                    }
                    let draw = rng.next_fx(0, FX_ONE);
                    if reflectance(cos_th, ratio) > draw {
                        Vec3::reflect(&unit_dir, &hit.normal)
                    } else {
                        Vec3::refract(&unit_dir, &hit.normal, ratio)
                    }
                };
                Scatter { color: Vec3::new(FX_ONE, FX_ONE, FX_ONE), ray: Some(Ray::new(hit.p, dir)) }
            },
        }
    }
}

} // verus!
