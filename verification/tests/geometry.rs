//! Ray-sphere intersection and scene resolution on concrete values.

use rain::fixed::{FX_MAX, FX_ONE};
use rain::material::{Lambertian, Material, Metal};
use rain::primitive::{Sphere, World};
use rain::ray::Ray;
use rain::vec3::Vec3;

fn gray() -> Material {
    Lambertian::new(Vec3::new(32768, 32768, 32768))
}

#[test]
fn head_on_hit_has_exact_root_point_and_normal() {
    // Ray (0,0,0) -> (0,0,-1) against a sphere at (0,0,-1) of radius 0.5:
    // the nearest hit is at t == 0.5, point (0,0,-0.5), normal (0,0,1).
    let sphere = Sphere::new(Vec3::new(0, 0, -FX_ONE), 32768, gray());
    let ray = Ray::new(Vec3::new(0, 0, 0), Vec3::new(0, 0, -FX_ONE));
    let hit = sphere.hit(&ray, 0, FX_MAX).expect("the ray points at the sphere");
    assert_eq!(hit.t, 32768);
    assert_eq!((hit.p.x, hit.p.y, hit.p.z), (0, 0, -32768));
    assert_eq!((hit.normal.x, hit.normal.y, hit.normal.z), (0, 0, FX_ONE));
    assert!(hit.front_face);
}

#[test]
fn normal_faces_the_ray_from_inside_too() {
    // A ray starting at the center strikes the back face: the outward
    // normal is negated so it still opposes the ray.
    let sphere = Sphere::new(Vec3::new(0, 0, -FX_ONE), 32768, gray());
    let ray = Ray::new(Vec3::new(0, 0, -FX_ONE), Vec3::new(0, 0, -FX_ONE));
    let hit = sphere.hit(&ray, 0, FX_MAX).expect("the ray starts inside");
    assert!(!hit.front_face);
    assert!(ray.dir.dot(&hit.normal) < 0);
}

#[test]
fn ray_beside_the_sphere_misses() {
    // The closest approach exceeds the radius: the discriminant is
    // nonpositive and there is no hit.
    let sphere = Sphere::new(Vec3::new(0, 0, -5 * FX_ONE), 32768, gray());
    let ray = Ray::new(Vec3::new(2 * FX_ONE, 0, 0), Vec3::new(0, 0, -FX_ONE));
    assert!(sphere.hit(&ray, 0, FX_MAX).is_none());
}

#[test]
fn ray_pointing_away_misses() {
    let sphere = Sphere::new(Vec3::new(0, 0, -5 * FX_ONE), FX_ONE, gray());
    let ray = Ray::new(Vec3::new(0, 0, 0), Vec3::new(0, FX_ONE, 0));
    assert!(sphere.hit(&ray, 0, FX_MAX).is_none());
}

#[test]
fn open_interval_rejects_far_bound() {
    let sphere = Sphere::new(Vec3::new(0, 0, -FX_ONE), 32768, gray());
    let ray = Ray::new(Vec3::new(0, 0, 0), Vec3::new(0, 0, -FX_ONE));
    // The near root is exactly 0.5; an interval ending there rejects it,
    // and the far root 1.5 is beyond it too.
    assert!(sphere.hit(&ray, 0, 32768).is_none());
}

#[test]
fn far_root_wins_when_near_root_is_behind() {
    // From the center, the near root is negative, so the far root is the
    // accepted one.
    let sphere = Sphere::new(Vec3::new(0, 0, -FX_ONE), 32768, gray());
    let ray = Ray::new(Vec3::new(0, 0, -FX_ONE), Vec3::new(0, 0, -FX_ONE));
    let hit = sphere.hit(&ray, 0, FX_MAX).expect("the far root is ahead");
    assert_eq!(hit.t, 32768);
}

#[test]
fn nearest_sphere_wins() {
    let mut world = World::new();
    world.add(Sphere::new(Vec3::new(0, 0, -4 * FX_ONE), FX_ONE, gray()));
    world.add(Sphere::new(
        Vec3::new(0, 0, -2 * FX_ONE),
        FX_ONE,
        Metal::new(Vec3::new(FX_ONE, 0, 0), 0),
    ));
    let ray = Ray::new(Vec3::new(0, 0, 0), Vec3::new(0, 0, -FX_ONE));
    let hit = world.hit(&ray, 0, FX_MAX).expect("both spheres are ahead");
    // The nearer sphere, listed second, is the metal one at t == 1.
    assert_eq!(hit.t, FX_ONE);
    assert!(matches!(hit.material, Material::Metal(_)));
}

#[test]
fn tie_keeps_the_earliest_primitive() {
    let mut world = World::new();
    world.add(Sphere::new(
        Vec3::new(0, 0, -2 * FX_ONE),
        FX_ONE,
        Metal::new(Vec3::new(FX_ONE, 0, 0), 0),
    ));
    world.add(Sphere::new(Vec3::new(0, 0, -2 * FX_ONE), FX_ONE, gray()));
    let ray = Ray::new(Vec3::new(0, 0, 0), Vec3::new(0, 0, -FX_ONE));
    let hit = world.hit(&ray, 0, FX_MAX).expect("both spheres are ahead");
    assert!(matches!(hit.material, Material::Metal(_)));
}

#[test]
fn empty_world_has_no_hit() {
    let world = World::new();
    let ray = Ray::new(Vec3::new(0, 0, 0), Vec3::new(0, 0, -FX_ONE));
    assert!(world.hit(&ray, 0, FX_MAX).is_none());
}

#[test]
fn well_formedness_checks_radius_and_material() {
    let mut world = World::new();
    world.add(Sphere::new(Vec3::new(0, 0, 0), FX_ONE, gray()));
    assert!(world.is_well_formed());
    world.spheres[0].radius = 0;
    assert!(!world.is_well_formed());
}

#[test]
fn well_formedness_checks_albedo_range() {
    let mut world = World::new();
    world.add(Sphere::new(Vec3::new(0, 0, 0), FX_ONE, gray()));
    world.spheres[0].material = Material::Lambertian(Lambertian {
        albedo: Vec3::new(3 * FX_ONE, 0, 0),
    });
    assert!(!world.is_well_formed());
}

#[test]
fn ray_at_zero_is_the_origin() {
    let ray = Ray::new(Vec3::new(FX_ONE, 2 * FX_ONE, 3 * FX_ONE), Vec3::new(0, 0, -FX_ONE));
    let p = ray.at(0);
    assert_eq!((p.x, p.y, p.z), (FX_ONE, 2 * FX_ONE, 3 * FX_ONE));
}

#[test]
fn points_along_a_ray_are_affine_in_t() {
    let ray = Ray::new(Vec3::new(FX_ONE, 0, 0), Vec3::new(FX_ONE, -FX_ONE, 0));
    let a = ray.at(2 * FX_ONE);
    let b = ray.at(FX_ONE);
    let diff = a.sub(&b);
    let step = ray.dir.scale(FX_ONE);
    assert_eq!((diff.x, diff.y, diff.z), (step.x, step.y, step.z));
}
