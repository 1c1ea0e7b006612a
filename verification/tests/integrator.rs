//! The radiance estimator: depth cutoff, background gradient, absorption.

use rain::fixed::FX_ONE;
use rain::material::{Lambertian, Metal};
use rain::primitive::{Sphere, World};
use rain::ray::Ray;
use rain::rng::Rng;
use rain::tracer::ray_color;
use rain::vec3::Vec3;

#[test]
fn depth_zero_is_black() {
    let mut world = World::new();
    world.add(Sphere::new(
        Vec3::new(0, 0, -2 * FX_ONE),
        FX_ONE,
        Lambertian::new(Vec3::new(32768, 32768, 32768)),
    ));
    let ray = Ray::new(Vec3::new(0, 0, 0), Vec3::new(0, 0, -FX_ONE));
    let mut rng = Rng::new(1);
    let c = ray_color(&ray, &world, 0, &mut rng);
    assert_eq!((c.x, c.y, c.z), (0, 0, 0));
}

#[test]
fn depth_zero_consumes_no_randomness() {
    let world = World::new();
    let ray = Ray::new(Vec3::new(0, 0, 0), Vec3::new(0, 0, -FX_ONE));
    let mut rng = Rng::new(42);
    let _ = ray_color(&ray, &world, 0, &mut rng);
    let mut fresh = Rng::new(42);
    assert_eq!(rng.next_u32(), fresh.next_u32());
}

#[test]
fn straight_up_miss_is_sky_blue() {
    let world = World::new();
    let ray = Ray::new(Vec3::new(0, 0, 0), Vec3::new(0, FX_ONE, 0));
    let mut rng = Rng::new(1);
    let c = ray_color(&ray, &world, 50, &mut rng);
    // t == 1 selects the sky color (0.5, 0.7, 1.0) exactly, with 0.7
    // rounded down to the representation.
    assert_eq!((c.x, c.y, c.z), (32768, 45875, FX_ONE));
}

#[test]
fn straight_down_miss_is_white() {
    let world = World::new();
    let ray = Ray::new(Vec3::new(0, 0, 0), Vec3::new(0, -FX_ONE, 0));
    let mut rng = Rng::new(1);
    let c = ray_color(&ray, &world, 50, &mut rng);
    assert_eq!((c.x, c.y, c.z), (FX_ONE, FX_ONE, FX_ONE));
}

#[test]
fn short_direction_misses_stay_in_color_range() {
    // A very short downward direction still normalizes exactly, so the
    // gradient parameter stays in range and the miss is plain white.
    let world = World::new();
    let ray = Ray::new(Vec3::new(0, 0, 0), Vec3::new(0, -300, 0));
    let mut rng = Rng::new(1);
    let c = ray_color(&ray, &world, 4, &mut rng);
    assert_eq!((c.x, c.y, c.z), (FX_ONE, FX_ONE, FX_ONE));
    let up = Ray::new(Vec3::new(0, 0, 0), Vec3::new(0, 300, 0));
    let cu = ray_color(&up, &world, 4, &mut rng);
    assert_eq!((cu.x, cu.y, cu.z), (32768, 45875, FX_ONE));
}

#[test]
fn trapped_ray_exhausts_depth_to_black() {
    // A mirror shell around the camera reflects the ray back and forth
    // until the depth bound cuts it off: the hard cutoff returns black.
    let mut world = World::new();
    world.add(Sphere::new(
        Vec3::new(0, 0, 0),
        FX_ONE,
        Metal::new(Vec3::new(FX_ONE, FX_ONE, FX_ONE), 0),
    ));
    let ray = Ray::new(Vec3::new(0, 0, 0), Vec3::new(0, 0, -FX_ONE));
    let mut rng = Rng::new(9);
    let c = ray_color(&ray, &world, 50, &mut rng);
    assert_eq!((c.x, c.y, c.z), (0, 0, 0));
}

#[test]
fn one_bounce_attenuates_the_background() {
    // A head-on perfect mirror sends the ray back toward the horizon; the
    // bounce returns the mid-gradient background attenuated by the albedo.
    let mut world = World::new();
    world.add(Sphere::new(
        Vec3::new(0, 0, -2 * FX_ONE),
        FX_ONE,
        Metal::new(Vec3::new(32768, 32768, 32768), 0),
    ));
    let ray = Ray::new(Vec3::new(0, 0, 0), Vec3::new(0, 0, -FX_ONE));
    let mut rng = Rng::new(2);
    let c = ray_color(&ray, &world, 2, &mut rng);
    // The reflected ray (0,0,1) misses everything; its background at
    // t == 0.5 is (0.75, 0.85, 1.0), and the albedo halves each channel
    // with truncation.
    assert_eq!((c.x, c.y, c.z), (24576, 27852, 32768));
}

#[test]
fn estimates_are_deterministic_for_a_seed() {
    let mut world = World::new();
    world.add(Sphere::new(
        Vec3::new(0, 0, -2 * FX_ONE),
        FX_ONE,
        Lambertian::new(Vec3::new(32768, 26214, 19660)),
    ));
    let ray = Ray::new(Vec3::new(0, 0, 0), Vec3::new(0, 0, -FX_ONE));
    let mut a = Rng::new(1234);
    let mut b = Rng::new(1234);
    let ca = ray_color(&ray, &world, 8, &mut a);
    let cb = ray_color(&ray, &world, 8, &mut b);
    assert_eq!((ca.x, ca.y, ca.z), (cb.x, cb.y, cb.z));
}
