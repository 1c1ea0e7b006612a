//! The intersection engine: spheres, oriented hit records, and a scene
//! resolved by nearest hit.

use vstd::prelude::*;

use crate::fixed::fadd;
use crate::fixed::fdiv;
use crate::fixed::fmul;
use crate::fixed::fneg;
use crate::fixed::fsqrt;
use crate::fixed::fsub;
use crate::fixed::fx_add;
use crate::fixed::fx_div;
use crate::fixed::fx_mul;
use crate::fixed::fx_neg;
use crate::fixed::fx_sqrt;
use crate::fixed::fx_sub;
use crate::material::mat_wf;
use crate::material::Material;
use crate::material::MaterialV;
use crate::ray::ray_at;
use crate::ray::Ray;
use crate::ray::RayV;
use crate::vec3::lemma_vdot_neg_right;
use crate::vec3::lemma_vlen_sq_nonneg;
use crate::vec3::vdiv_s;
use crate::vec3::vdot;
use crate::vec3::vlen_sq;
use crate::vec3::vneg;
use crate::vec3::vsub;
use crate::vec3::vwf;
use crate::vec3::Vec3;
use crate::vec3::V3;

verus! {

/// The result of a successful intersection: location, oriented normal, ray
/// parameter, which side was struck, and the struck material.
#[derive(Clone, Copy, Debug)]
pub struct Hit {
    pub p: Vec3,
    pub normal: Vec3,
    pub t: i64,
    pub front_face: bool,
    pub material: Material,
}

/// Mathematical model of a hit record.
pub ghost struct HitV {
    pub p: V3,
    pub normal: V3,
    pub t: int,
    pub front_face: bool,
    pub material: MaterialV,
}

impl View for Hit {
    type V = HitV;

    open spec fn view(&self) -> HitV {
        HitV {
            p: self.p@,
            normal: self.normal@,
            t: self.t as int,
            front_face: self.front_face,
            material: self.material@,
        }
    }
}

/// An optional hit, seen at the model level.
pub open spec fn hit_opt_view(o: Option<Hit>) -> Option<HitV> {
    match o {
        Some(h) => Some(h@),
        None => None,
    }
}

/// An oriented hit record: the normal is the outward normal when the ray
/// struck the front face, its negation otherwise, so that it always faces
/// the incoming ray.
pub open spec fn make_hit(ray: RayV, t: int, p: V3, outward_normal: V3, material: MaterialV) -> HitV {
    let front_face = vdot(ray.dir, outward_normal) < 0;
    HitV {
        p,
        normal: if front_face {
            outward_normal
        } else {
            vneg(outward_normal)
        },
        t,
        front_face,
        material,
    }
}

impl Hit {
    pub fn new(ray: &Ray, t: i64, p: Vec3, outward_normal: Vec3, material: Material) -> (h: Hit)
        ensures
            h@ == make_hit(ray@, t as int, p@, outward_normal@, material@),
    {
        let front_face = ray.dir.dot(&outward_normal) < 0;
        let normal = if front_face {
            outward_normal
        } else {
            outward_normal.neg()
        };
        Hit { p, normal, t, front_face, material }
    }
}

/// After the front-face correction the recorded normal never points with
/// the incoming ray: their dot product is nonpositive, and strictly
/// negative unless the ray grazes the surface exactly.
pub proof fn lemma_hit_normal_opposes_ray(
    ray: RayV,
    t: int,
    p: V3,
    outward_normal: V3,
    material: MaterialV,
)
    requires
        vwf(outward_normal),
    ensures
        vdot(ray.dir, make_hit(ray, t, p, outward_normal, material).normal) <= 0,
        vdot(ray.dir, outward_normal) != 0 ==> vdot(
            ray.dir,
            make_hit(ray, t, p, outward_normal, material).normal,
        ) < 0,
{
    if !(vdot(ray.dir, outward_normal) < 0) {
        lemma_vdot_neg_right(ray.dir, outward_normal);
    }
}

/// A sphere, owning its material.
#[derive(Clone, Copy, Debug)]
pub struct Sphere {
    pub center: Vec3,
    pub radius: i64,
    pub material: Material,
}

/// Mathematical model of a sphere.
pub ghost struct SphereV {
    pub center: V3,
    pub radius: int,
    pub material: MaterialV,
}

impl View for Sphere {
    type V = SphereV;

    open spec fn view(&self) -> SphereV {
        SphereV { center: self.center@, radius: self.radius as int, material: self.material@ }
    }
}

/// A positive radius, a representable center and material parameters in
/// range.
pub open spec fn sphere_wf(s: SphereV) -> bool {
    s.radius > 0 && vwf(s.center) && mat_wf(s.material)
}

/// The discriminant of the ray-sphere quadratic, over the fixed-point
/// operations: `half_b^2 - a c`.
pub open spec fn sphere_discriminant(s: SphereV, ray: RayV) -> int {
    let oc = vsub(ray.orig, s.center);
    let a = vlen_sq(ray.dir);
    let half_b = vdot(oc, ray.dir);
    let c = fsub(vlen_sq(oc), fmul(s.radius, s.radius));
    fsub(fmul(half_b, half_b), fmul(a, c))
}

/// The oriented record a sphere produces for an accepted root `t`.
pub open spec fn sphere_record(s: SphereV, ray: RayV, t: int) -> HitV {
    let p = ray_at(ray, t);
    make_hit(ray, t, p, vdiv_s(vsub(p, s.center), s.radius), s.material)
}

/// Ray-sphere intersection within the open interval `(t_min, t_max)`: the
/// nearer root is tested first, so the first root inside the interval is
/// the nearest valid one. A nonpositive discriminant, or a degenerate
/// direction whose squared length rescales to zero, yields no hit.
pub open spec fn sphere_hit_spec(s: SphereV, ray: RayV, t_min: int, t_max: int) -> Option<HitV> {
    let oc = vsub(ray.orig, s.center);
    let a = vlen_sq(ray.dir);
    let half_b = vdot(oc, ray.dir);
    let disc = sphere_discriminant(s, ray);
    if disc > 0 && a != 0 {
        let root = fsqrt(disc);
        let t1 = fdiv(fsub(fneg(half_b), root), a);
        if t_min < t1 && t1 < t_max {
            Some(sphere_record(s, ray, t1))
        } else {
            let t2 = fdiv(fadd(fneg(half_b), root), a);
            if t_min < t2 && t2 < t_max {
                Some(sphere_record(s, ray, t2))
            } else {
                None
            }
        }
    } else {
        None
    }
}

impl Sphere {
    pub fn new(center: Vec3, radius: i64, material: Material) -> (s: Sphere)
        requires
            radius > 0,
            mat_wf(material@),
        ensures
            s@ == (SphereV { center: center@, radius: radius as int, material: material@ }),
    {
        Sphere { center, radius, material }
    }

    /// Whether the sphere's data lies in the ranges the intersection and
    /// scattering formulas assume.
    pub fn is_well_formed(&self) -> (r: bool)
        ensures
            r == sphere_wf(self@),
    {
        let center_ok = self.center.x() != i64::MIN && self.center.y() != i64::MIN
            && self.center.z() != i64::MIN;
        let mat_ok = self.material.is_well_formed();
        self.radius > 0 && center_ok && mat_ok
    }

    /// Intersect a ray with the sphere inside the open interval
    /// `(t_min, t_max)`.
    pub fn hit(&self, ray: &Ray, t_min: i64, t_max: i64) -> (r: Option<Hit>)
        requires
            sphere_wf(self@),
        ensures
            hit_opt_view(r) == sphere_hit_spec(self@, ray@, t_min as int, t_max as int),
            r matches Some(h) ==> vdot(ray@.dir, h@.normal) <= 0,
    {
        let oc = ray.orig.sub(&self.center);
        let a = ray.dir.len_squared();
        let half_b = oc.dot(&ray.dir);
        let c = fx_sub(oc.len_squared(), fx_mul(self.radius, self.radius));
        let discriminant = fx_sub(fx_mul(half_b, half_b), fx_mul(a, c));
        if discriminant > 0 && a != 0 {
            let root = fx_sqrt(discriminant);
            let t = fx_div(fx_sub(fx_neg(half_b), root), a);
            if t < t_max && t > t_min {
                let p = ray.at(t);
                let outward = p.sub(&self.center).div_s(self.radius);
                proof {
                    lemma_hit_normal_opposes_ray(ray@, t as int, p@, outward@, self@.material);
                }
                return Some(Hit::new(ray, t, p, outward, self.material));
            }
            let t = fx_div(fx_add(fx_neg(half_b), root), a);
            if t < t_max && t > t_min {
                let p = ray.at(t);
                let outward = p.sub(&self.center).div_s(self.radius);
                proof {
                    lemma_hit_normal_opposes_ray(ray@, t as int, p@, outward@, self@.material);
                }
                return Some(Hit::new(ray, t, p, outward, self.material));
            }
            None
        } else {
            None
        }
    }
}

/// An insertion-ordered collection of primitives, resolved by nearest hit.
pub struct World {
    pub spheres: Vec<Sphere>,
}

impl View for World {
    type V = Seq<SphereV>;

    open spec fn view(&self) -> Seq<SphereV> {
        self.spheres@.map_values(|s: Sphere| s@)
    }
}

/// Every primitive of the scene is well formed.
pub open spec fn world_wf(w: Seq<SphereV>) -> bool {
    forall|i: int| 0 <= i < w.len() ==> sphere_wf(#[trigger] w[i])
}

/// Nearest-hit resolution over the scene, in insertion order: a later
/// primitive replaces the best hit so far only when its parameter is
/// strictly smaller, so on an exact tie the earliest primitive wins.
pub open spec fn world_hit_spec(w: Seq<SphereV>, ray: RayV, t_min: int, t_max: int) -> Option<HitV>
    decreases w.len(),
{
    if w.len() == 0 {
        None
    } else {
        let prev = world_hit_spec(w.drop_last(), ray, t_min, t_max);
        match sphere_hit_spec(w.last(), ray, t_min, t_max) {
            None => prev,
            Some(h) => match prev {
                None => Some(h),
                Some(p) => if h.t < p.t {
                    Some(h)
                } else {
                    Some(p)
                },
            },
        }
    }
}

impl World {
    pub fn new() -> (w: World)
        ensures
            w@ =~= Seq::<SphereV>::empty(),
    {
        World { spheres: Vec::new() }
    }

    pub fn add(&mut self, s: Sphere)
        ensures
            final(self)@ =~= old(self)@.push(s@),
    {
        self.spheres.push(s);
    }

    pub fn len(&self) -> (n: usize)
        ensures
            n == self@.len(),
    {
        self.spheres.len()
    }

    /// Whether every primitive of the scene is well formed.
    pub fn is_well_formed(&self) -> (r: bool)
        ensures
            r == world_wf(self@),
    {
        let mut i: usize = 0;
        while i < self.spheres.len()
            invariant
                0 <= i <= self.spheres.len(),
                self@.len() == self.spheres.len(),
                forall|j: int| 0 <= j < i ==> sphere_wf(#[trigger] self@[j]),
            decreases self.spheres.len() - i,
        {
            let ok = self.spheres[i].is_well_formed();
            proof {
                assert(self@[i as int] == self.spheres@[i as int]@);
            }
            if !ok {
                return false;
            }
            i += 1;
        }
        true
    }

    /// The nearest hit of the ray against the scene inside the open
    /// interval `(t_min, t_max)`.
    pub fn hit(&self, ray: &Ray, t_min: i64, t_max: i64) -> (r: Option<Hit>)
        requires
            world_wf(self@),
        ensures
            hit_opt_view(r) == world_hit_spec(self@, ray@, t_min as int, t_max as int),
            r matches Some(h) ==> vdot(ray@.dir, h@.normal) <= 0,
    {
        let mut best: Option<Hit> = None;
        let mut i: usize = 0;
        while i < self.spheres.len()
            invariant
                0 <= i <= self.spheres.len(),
                self@.len() == self.spheres.len(),
                world_wf(self@),
                hit_opt_view(best) == world_hit_spec(
                    self@.take(i as int),
                    ray@,
                    t_min as int,
                    t_max as int,
                ),
                best matches Some(h) ==> vdot(ray@.dir, h@.normal) <= 0,
            decreases self.spheres.len() - i,
        {
            proof {
                assert(self@.take(i + 1).drop_last() =~= self@.take(i as int));
                assert(self@.take(i + 1).last() == self@[i as int]);
            }
            match self.spheres[i].hit(ray, t_min, t_max) {
                Some(h) => {
                    match &best {
                        None => {
                            best = Some(h);
                        },
                        Some(prev) => {
                            if h.t < prev.t {
                                best = Some(h);
                            }
                        },
                    }
                },
                None => {},
            }
            i += 1;
        }
        proof {
            assert(self@.take(self@.len() as int) =~= self@);
        }
        best
    }
}

/// A hit resolved against a well-formed scene carries a well-formed
/// material.
pub proof fn lemma_world_hit_material_wf(w: Seq<SphereV>, ray: RayV, t_min: int, t_max: int)
    requires
        world_wf(w),
        world_hit_spec(w, ray, t_min, t_max) is Some,
    ensures
        mat_wf(world_hit_spec(w, ray, t_min, t_max).unwrap().material),
    decreases w.len(),
{
    if w.len() > 0 {
        assert(forall|i: int|
            0 <= i < w.drop_last().len() ==> #[trigger] w.drop_last()[i] == w[i]);
        assert(sphere_wf(w.last()));
        if world_hit_spec(w.drop_last(), ray, t_min, t_max) is Some {
            lemma_world_hit_material_wf(w.drop_last(), ray, t_min, t_max);
        }
    }
}

/// The two candidate roots of the ray-sphere quadratic come out in order:
/// the root tested first is never the farther one, so the first root that
/// lies inside the interval is the nearest valid one.
pub proof fn lemma_near_root_tested_first(s: SphereV, ray: RayV)
    requires
        vlen_sq(ray.dir) > 0,
    ensures
        ({
            let oc = vsub(ray.orig, s.center);
            let a = vlen_sq(ray.dir);
            let half_b = vdot(oc, ray.dir);
            let root = fsqrt(sphere_discriminant(s, ray));
            fdiv(fsub(fneg(half_b), root), a) <= fdiv(fadd(fneg(half_b), root), a)
        }),
{
    let oc = vsub(ray.orig, s.center);
    let a = vlen_sq(ray.dir);
    let half_b = vdot(oc, ray.dir);
    let root = fsqrt(sphere_discriminant(s, ray));
    crate::fixed::lemma_fdiv_monotone(fsub(fneg(half_b), root), fadd(fneg(half_b), root), a);
}

/// Whenever the discriminant of the ray-sphere quadratic is nonpositive —
/// the ray's closest approach to the center exceeds the radius — the
/// intersection yields no hit, whatever the interval.
pub proof fn lemma_nonpositive_discriminant_misses(s: SphereV, ray: RayV, t_min: int, t_max: int)
    requires
        sphere_discriminant(s, ray) <= 0,
    ensures
        sphere_hit_spec(s, ray, t_min, t_max) is None,
{
}

} // verus!
