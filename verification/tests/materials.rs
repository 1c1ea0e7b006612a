//! The three scattering models on concrete hits.

use rain::fixed::FX_ONE;
use rain::material::{Dielectric, Lambertian, Material, Metal};
use rain::primitive::{Hit, Sphere};
use rain::ray::Ray;
use rain::rng::Rng;
use rain::vec3::Vec3;

fn front_hit(material: Material) -> (Ray, Hit) {
    // A ray straight down the z axis striking the plane z == -1 head on.
    let ray = Ray::new(Vec3::new(0, 0, 0), Vec3::new(0, 0, -FX_ONE));
    let hit = Hit::new(
        &ray,
        FX_ONE,
        Vec3::new(0, 0, -FX_ONE),
        Vec3::new(0, 0, FX_ONE),
        material,
    );
    (ray, hit)
}

#[test]
fn lambertian_always_scatters_from_the_hit_point() {
    let albedo = Vec3::new(26214, 13107, 6553);
    let material = Lambertian::new(albedo);
    let (ray, hit) = front_hit(material);
    let mut rng = Rng::new(11);
    let scatter = material.scatter(&ray, &hit, &mut rng);
    let out = scatter.ray.expect("diffuse scattering always continues");
    assert_eq!((out.orig.x, out.orig.y, out.orig.z), (0, 0, -FX_ONE));
    assert_eq!((scatter.color.x, scatter.color.y, scatter.color.z), (26214, 13107, 6553));
}

#[test]
fn metal_with_zero_fuzz_is_a_perfect_mirror() {
    let material = Metal::new(Vec3::new(FX_ONE, FX_ONE, FX_ONE), 0);
    let ray = Ray::new(Vec3::new(0, 0, 0), Vec3::new(0, 0, -FX_ONE));
    let hit = Hit::new(&ray, FX_ONE, Vec3::new(0, 0, -FX_ONE), Vec3::new(0, 0, FX_ONE), material);
    let mut rng = Rng::new(17);
    let scatter = material.scatter(&ray, &hit, &mut rng);
    let out = scatter.ray.expect("the head-on reflection leaves the surface");
    let expected = Vec3::reflect(&ray.dir.unit(), &hit.normal);
    assert_eq!((out.dir.x, out.dir.y, out.dir.z), (expected.x, expected.y, expected.z));
    assert_eq!((out.dir.x, out.dir.y, out.dir.z), (0, 0, FX_ONE));
}

#[test]
fn metal_absorbs_a_reflection_into_the_surface() {
    // With the normal along the incoming direction the reflection points
    // into the surface and the ray is absorbed.
    let material = Metal::new(Vec3::new(FX_ONE, FX_ONE, FX_ONE), 0);
    let ray = Ray::new(Vec3::new(0, 0, 0), Vec3::new(0, 0, -FX_ONE));
    let hit = Hit {
        p: Vec3::new(0, 0, -FX_ONE),
        normal: Vec3::new(0, 0, -FX_ONE),
        t: FX_ONE,
        front_face: false,
        material,
    };
    let mut rng = Rng::new(23);
    let scatter = material.scatter(&ray, &hit, &mut rng);
    assert!(scatter.ray.is_none());
}

#[test]
fn metal_fuzz_is_clamped() {
    let too_much = Metal::new(Vec3::new(FX_ONE, 0, 0), 5 * FX_ONE);
    match too_much {
        Material::Metal(m) => assert_eq!(m.fuzz, FX_ONE),
        _ => unreachable!(),
    }
    let negative = Metal::new(Vec3::new(FX_ONE, 0, 0), -FX_ONE);
    match negative {
        Material::Metal(m) => assert_eq!(m.fuzz, 0),
        _ => unreachable!(),
    }
}

#[test]
fn unit_index_dielectric_passes_head_on_rays_through() {
    let material = Dielectric::new(FX_ONE);
    let (ray, hit) = front_hit(material);
    let mut rng = Rng::new(31);
    let scatter = material.scatter(&ray, &hit, &mut rng);
    let out = scatter.ray.expect("a dielectric always scatters");
    // Head on, reflectance is zero and the refraction ratio is one: the
    // ray continues exactly along its incoming direction.
    assert_eq!((out.dir.x, out.dir.y, out.dir.z), (0, 0, -FX_ONE));
    assert_eq!(
        (scatter.color.x, scatter.color.y, scatter.color.z),
        (FX_ONE, FX_ONE, FX_ONE),
    );
}

#[test]
fn dielectric_always_scatters() {
    let material = Dielectric::new(98304);
    let ray = Ray::new(Vec3::new(0, 0, 0), Vec3::new(FX_ONE, 0, -FX_ONE));
    let sphere = Sphere::new(Vec3::new(FX_ONE, 0, -FX_ONE), 32768, material);
    let hit = sphere.hit(&ray, 0, rain::fixed::FX_MAX).expect("the ray points at the sphere");
    let mut rng = Rng::new(37);
    let scatter = material.scatter(&ray, &hit, &mut rng);
    assert!(scatter.ray.is_some());
}
