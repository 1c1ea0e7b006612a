//! The showcase scene builder.

use rain::fixed::FX_ONE;
use rain::material::Material;
use rain::rng::Rng;
use rain::scene::random_scene;

#[test]
fn scene_is_well_formed_and_bounded() {
    let mut rng = Rng::new(2024);
    let world = random_scene(&mut rng);
    assert!(world.is_well_formed());
    // The ground, at most one ball per grid cell, and three features.
    assert!(world.spheres.len() >= 4);
    assert!(world.spheres.len() <= 488);
}

#[test]
fn scene_is_deterministic_for_a_seed() {
    let mut a = Rng::new(55);
    let mut b = Rng::new(55);
    let wa = random_scene(&mut a);
    let wb = random_scene(&mut b);
    assert_eq!(wa.spheres.len(), wb.spheres.len());
    for (sa, sb) in wa.spheres.iter().zip(wb.spheres.iter()) {
        assert_eq!(sa.radius, sb.radius);
        assert_eq!((sa.center.x, sa.center.y, sa.center.z), (sb.center.x, sb.center.y, sb.center.z));
    }
    assert_eq!(a.next_u32(), b.next_u32());
}

#[test]
fn scene_starts_with_the_ground_and_ends_with_the_features() {
    let mut rng = Rng::new(7);
    let world = random_scene(&mut rng);
    let ground = &world.spheres[0];
    assert_eq!(ground.radius, 1000 * FX_ONE);
    assert_eq!(ground.center.y, -1000 * FX_ONE);
    let n = world.spheres.len();
    assert!(matches!(world.spheres[n - 3].material, Material::Dielectric(_)));
    assert!(matches!(world.spheres[n - 2].material, Material::Lambertian(_)));
    assert!(matches!(world.spheres[n - 1].material, Material::Metal(_)));
    assert_eq!(world.spheres[n - 1].center.x, 4 * FX_ONE);
}
