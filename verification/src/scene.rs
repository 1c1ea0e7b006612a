//! The showcase scene: a ground sphere, a grid of small randomized balls,
//! and three large feature spheres, all drawn from a caller-supplied random
//! source so that the same seed builds the same scene.

use vstd::prelude::*;

use crate::fixed::fadd;
use crate::fixed::fmul;
use crate::fixed::fx_add;
use crate::fixed::fx_mul;
use crate::fixed::FX_ONE;
use crate::fixed::SCALE;
use crate::material::mat_wf;
use crate::material::Dielectric;
use crate::material::Lambertian;
use crate::material::MaterialV;
use crate::material::Metal;
use crate::primitive::sphere_wf;
use crate::primitive::world_wf;
use crate::primitive::Sphere;
use crate::primitive::SphereV;
use crate::primitive::World;
use crate::rng::next_state;
use crate::rng::rand_fx;
use crate::rng::Rng;
use crate::vec3::rand_v3;
use crate::vec3::state3;
use crate::vec3::vlen;
use crate::vec3::vmul;
use crate::vec3::vsub;
use crate::vec3::Vec3;
use crate::vec3::V3;

verus! {

/// The grid is `GRID_SIDE` by `GRID_SIDE` cells.
pub const GRID_SIDE: u32 = 22;

/// How many grid cells the scene draws.
pub const GRID_CELLS: u32 = 484;

/// A small ball's center jitters by up to nine tenths of a cell.
pub const CELL_JITTER: i64 = 58982;

/// Radius, and height, of the small balls: one fifth.
pub const SMALL_RADIUS: i64 = 13107;

/// Draws below four fifths become diffuse balls.
pub const DIFFUSE_CUTOFF: i64 = 52428;

/// Draws below nineteen twentieths (and at least the diffuse cutoff)
/// become metal balls.
pub const METAL_CUTOFF: i64 = 62259;

/// Refractive index of the glass balls: one and a half.
pub const CLEAR_IOR: i64 = 98304;

/// Radius of the ground sphere: a thousand.
pub const GROUND_RADIUS: i64 = 65536000;

/// The x coordinate the small balls keep away from: four.
pub const FEATURE_X: i64 = 262144;

/// One half.
pub const HALF_TONE: i64 = 32768;

/// The ball one grid cell contributes, if any: a choice draw and a jittered
/// center; cells too close to the right feature sphere stay empty. A
/// diffuse ball draws six more values for its albedo, a metal ball four
/// for albedo and fuzz, a glass ball none.
pub open spec fn cell_spec(a: int, b: int, s: u64) -> (Option<SphereV>, u64) {
    let choose = rand_fx(s, 0, FX_ONE as int);
    let s1 = next_state(s);
    let cx = fadd(a * (SCALE as int), fmul(CELL_JITTER as int, rand_fx(s1, 0, FX_ONE as int)));
    let s2 = next_state(s1);
    let cz = fadd(b * (SCALE as int), fmul(CELL_JITTER as int, rand_fx(s2, 0, FX_ONE as int)));
    let s3 = next_state(s2);
    let center = V3 { x: cx, y: SMALL_RADIUS as int, z: cz };
    if vlen(vsub(center, V3 { x: FEATURE_X as int, y: 0, z: 0 })) > CELL_JITTER {
        if choose < DIFFUSE_CUTOFF {
            let albedo = vmul(rand_v3(s3, 0, FX_ONE as int), rand_v3(state3(s3), 0, FX_ONE as int));
            (
                Some(
                    SphereV {
                        center,
                        radius: SMALL_RADIUS as int,
                        material: MaterialV::Lambertian { albedo },
                    },
                ),
                state3(state3(s3)),
            )
        } else if choose < METAL_CUTOFF {
            let albedo = rand_v3(s3, HALF_TONE as int, FX_ONE as int);
            let fuzz = rand_fx(state3(s3), 0, HALF_TONE as int);
            (
                Some(
                    SphereV {
                        center,
                        radius: SMALL_RADIUS as int,
                        material: MaterialV::Metal { albedo, fuzz },
                    },
                ),
                next_state(state3(s3)),
            )
        } else {
            (
                Some(
                    SphereV {
                        center,
                        radius: SMALL_RADIUS as int,
                        material: MaterialV::Dielectric { ir: CLEAR_IOR as int },
                    },
                ),
                s3,
            )
        }
    } else {
        (None, s3)
    }
}

/// The balls of the first `idx` grid cells, in cell order: cell `k` covers
/// grid coordinates `(k / GRID_SIDE - 11, k % GRID_SIDE - 11)`.
pub open spec fn grid_spec(idx: nat, s: u64) -> (Seq<SphereV>, u64)
    decreases idx,
{
    if idx == 0 {
        (Seq::empty(), s)
    } else {
        let prev = grid_spec((idx - 1) as nat, s);
        let k = idx - 1;
        let cell = cell_spec(k / (GRID_SIDE as int) - 11, k % (GRID_SIDE as int) - 11, prev.1);
        (
            match cell.0 {
                Some(sp) => prev.0.push(sp),
                None => prev.0,
            },
            cell.1,
        )
    }
}

/// The whole scene: the gray ground sphere, then the grid balls, then the
/// three large feature spheres — glass, diffuse and polished metal.
pub open spec fn random_scene_spec(s: u64) -> (Seq<SphereV>, u64) {
    let ground = SphereV {
        center: V3 { x: 0, y: -(GROUND_RADIUS as int), z: 0 },
        radius: GROUND_RADIUS as int,
        material: MaterialV::Lambertian {
            albedo: V3 { x: HALF_TONE as int, y: HALF_TONE as int, z: HALF_TONE as int },
        },
    };
    let grid = grid_spec(GRID_CELLS as nat, s);
    let glass = SphereV {
        center: V3 { x: 0, y: FX_ONE as int, z: 0 },
        radius: FX_ONE as int,
        material: MaterialV::Dielectric { ir: CLEAR_IOR as int },
    };
    let matte = SphereV {
        center: V3 { x: -(FEATURE_X as int), y: FX_ONE as int, z: 0 },
        radius: FX_ONE as int,
        material: MaterialV::Lambertian { albedo: V3 { x: 26214, y: 13107, z: 6553 } },
    };
    let mirror = SphereV {
        center: V3 { x: FEATURE_X as int, y: FX_ONE as int, z: 0 },
        radius: FX_ONE as int,
        material: MaterialV::Metal { albedo: V3 { x: 45875, y: 39321, z: 32768 }, fuzz: 0 },
    };
    (seq![ground] + grid.0 + seq![glass, matte, mirror], grid.1)
}

/// The ball one grid cell contributes, if any.
fn cell(rng: &mut Rng, a: i64, b: i64) -> (r: Option<Sphere>)
    requires
        -11 <= a < 11,
        -11 <= b < 11,
    ensures
        ({
            let spec = cell_spec(a as int, b as int, old(rng).state);
            &&& match r {
                Some(sp) => spec.0 == Some(sp@) && sphere_wf(sp@),
                None => spec.0 is None,
            }
            &&& final(rng).state == spec.1
        }),
{
    let choose = rng.next_fx(0, FX_ONE);
    let jx = rng.next_fx(0, FX_ONE);
    let cx = fx_add(a * SCALE, fx_mul(CELL_JITTER, jx));
    let jz = rng.next_fx(0, FX_ONE);
    let cz = fx_add(b * SCALE, fx_mul(CELL_JITTER, jz));
    let center = Vec3 { x: cx, y: SMALL_RADIUS, z: cz };
    let away = center.sub(&Vec3 { x: FEATURE_X, y: 0, z: 0 });
    if away.len() > CELL_JITTER {
        if choose < DIFFUSE_CUTOFF {
            let c1 = Vec3::random(rng);
            let c2 = Vec3::random(rng);
            proof {
                crate::fixed::lemma_fmul_unit_interval(c1@.x, c2@.x);
                crate::fixed::lemma_fmul_unit_interval(c1@.y, c2@.y);
                crate::fixed::lemma_fmul_unit_interval(c1@.z, c2@.z);
            }
            let albedo = c1.mul(&c2);
            Some(Sphere::new(center, SMALL_RADIUS, Lambertian::new(albedo)))
        } else if choose < METAL_CUTOFF {
            let albedo = Vec3::random_range(rng, HALF_TONE, FX_ONE);
            let fuzz = rng.next_fx(0, HALF_TONE);
            Some(Sphere::new(center, SMALL_RADIUS, Metal::new(albedo, fuzz)))
        } else {
            Some(Sphere::new(center, SMALL_RADIUS, Dielectric::new(CLEAR_IOR)))
        }
    } else {
        None
    }
}

/// Build the showcase scene from the random source. The same starting
/// state yields the same scene, sphere for sphere.
pub fn random_scene(rng: &mut Rng) -> (w: World)
    ensures
        w@ == random_scene_spec(old(rng).state).0,
        final(rng).state == random_scene_spec(old(rng).state).1,
        world_wf(w@),
{
    let ghost s_start = rng.state;
    let mut world = World::new();
    world.add(
        Sphere::new(
            Vec3 { x: 0, y: -GROUND_RADIUS, z: 0 },
            GROUND_RADIUS,
            Lambertian::new(Vec3 { x: HALF_TONE, y: HALF_TONE, z: HALF_TONE }),
        ),
    );
    let ghost ground_v = world@[0];
    let mut k: u32 = 0;
    while k < GRID_CELLS
        invariant
            k <= GRID_CELLS,
            world@ == seq![ground_v] + grid_spec(k as nat, s_start).0,
            rng.state == grid_spec(k as nat, s_start).1,
            world_wf(world@),
        decreases GRID_CELLS - k,
    {
        let a = (k / GRID_SIDE) as i64 - 11;
        let b = (k % GRID_SIDE) as i64 - 11;
        match cell(rng, a, b) {
            Some(sp) => {
                world.add(sp);
                proof {
                    assert(world@ =~= seq![ground_v] + grid_spec((k + 1) as nat, s_start).0);
                }
            },
            None => {
                proof {
                    assert(world@ =~= seq![ground_v] + grid_spec((k + 1) as nat, s_start).0);
                }
            },
        }
        k += 1;
    }
    world.add(Sphere::new(Vec3 { x: 0, y: FX_ONE, z: 0 }, FX_ONE, Dielectric::new(CLEAR_IOR)));
    world.add(
        Sphere::new(
            Vec3 { x: -FEATURE_X, y: FX_ONE, z: 0 },
            FX_ONE,
            Lambertian::new(Vec3 { x: 26214, y: 13107, z: 6553 }),
        ),
    );
    world.add(
        Sphere::new(
            Vec3 { x: FEATURE_X, y: FX_ONE, z: 0 },
            FX_ONE,
            Metal::new(Vec3 { x: 45875, y: 39321, z: 32768 }, 0),
        ),
    );
    proof {
        assert(world@ =~= random_scene_spec(s_start).0);
    }
    world
}

} // verus!
