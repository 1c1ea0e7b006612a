//! Vector arithmetic, sampling and color conversion on concrete values.

use rain::fixed::FX_ONE;
use rain::rng::Rng;
use rain::vec3::Vec3;

#[test]
fn dot_of_unit_axes() {
    let x = Vec3::new(FX_ONE, 0, 0);
    let y = Vec3::new(0, FX_ONE, 0);
    assert_eq!(x.dot(&y), 0);
    assert_eq!(x.dot(&x), FX_ONE);
}

#[test]
fn cross_of_unit_axes() {
    let x = Vec3::new(FX_ONE, 0, 0);
    let y = Vec3::new(0, FX_ONE, 0);
    let z = x.cross(&y);
    assert_eq!((z.x, z.y, z.z), (0, 0, FX_ONE));
}

#[test]
fn length_of_a_pythagorean_triple() {
    // |(3, 4, 0)| == 5
    let v = Vec3::new(3 * FX_ONE, 4 * FX_ONE, 0);
    assert_eq!(v.len(), 5 * FX_ONE);
    assert_eq!(v.len_squared(), 25 * FX_ONE);
    assert!(!v.is_empty());
    assert!(Vec3::new(0, 0, 0).is_empty());
}

#[test]
fn short_vectors_keep_their_exact_length() {
    // The length is computed on raw components with no truncation before
    // the root, so vectors far below one keep their true length.
    let v = Vec3::new(0, -300, 0);
    assert_eq!(v.len(), 300);
    assert!(!v.is_empty());
    let u = v.unit();
    assert_eq!((u.x, u.y, u.z), (0, -FX_ONE, 0));
    let w = Vec3::new(255, 0, 0);
    assert_eq!(w.len(), 255);
    assert!(!w.is_empty());
}

#[test]
fn unit_rescales_exactly_on_axes() {
    let v = Vec3::new(0, 0, -3 * FX_ONE);
    let u = v.unit();
    assert_eq!((u.x, u.y, u.z), (0, 0, -FX_ONE));
    // The zero vector stays zero.
    let z = Vec3::new(0, 0, 0).unit();
    assert_eq!((z.x, z.y, z.z), (0, 0, 0));
}

#[test]
fn reflect_about_the_z_axis() {
    // v - 2 (v . n) n with v straight down onto the xy-plane.
    let v = Vec3::new(FX_ONE, 0, -FX_ONE);
    let n = Vec3::new(0, 0, FX_ONE);
    let r = Vec3::reflect(&v, &n);
    assert_eq!((r.x, r.y, r.z), (FX_ONE, 0, FX_ONE));
}

#[test]
fn refract_with_unit_ratio_is_identity_head_on() {
    let uv = Vec3::new(0, 0, -FX_ONE);
    let n = Vec3::new(0, 0, FX_ONE);
    let r = Vec3::refract(&uv, &n, FX_ONE);
    assert_eq!((r.x, r.y, r.z), (0, 0, -FX_ONE));
}

#[test]
fn componentwise_product_and_quotient() {
    let a = Vec3::new(FX_ONE, 2 * FX_ONE, 6 * FX_ONE);
    let b = Vec3::new(2 * FX_ONE, 2 * FX_ONE, 3 * FX_ONE);
    let m = a.mul(&b);
    assert_eq!((m.x, m.y, m.z), (2 * FX_ONE, 4 * FX_ONE, 18 * FX_ONE));
    let q = a.div(&b);
    assert_eq!((q.x, q.y, q.z), (32768, FX_ONE, 2 * FX_ONE));
}

#[test]
fn default_is_zero() {
    let v = Vec3::default();
    assert_eq!((v.x, v.y, v.z), (0, 0, 0));
}

#[test]
fn random_is_deterministic_for_a_seed() {
    let mut a = Rng::new(7);
    let mut b = Rng::new(7);
    let va = Vec3::random(&mut a);
    let vb = Vec3::random(&mut b);
    assert_eq!((va.x, va.y, va.z), (vb.x, vb.y, vb.z));
    assert!(va.x >= 0 && va.x < FX_ONE);
    assert!(va.y >= 0 && va.y < FX_ONE);
    assert!(va.z >= 0 && va.z < FX_ONE);
}

#[test]
fn random_range_stays_in_range() {
    let mut rng = Rng::new(99);
    for _ in 0..32 {
        let v = Vec3::random_range(&mut rng, -FX_ONE, FX_ONE);
        assert!(v.x >= -FX_ONE && v.x < FX_ONE);
        assert!(v.y >= -FX_ONE && v.y < FX_ONE);
        assert!(v.z >= -FX_ONE && v.z < FX_ONE);
    }
}

#[test]
fn unit_ball_samples_stay_inside() {
    let mut rng = Rng::new(3);
    for _ in 0..32 {
        let v = Vec3::random_in_unit_sphere(&mut rng);
        assert!(v.len_squared() < FX_ONE);
    }
}

#[test]
fn unit_disk_samples_stay_inside_and_flat() {
    let mut rng = Rng::new(4);
    for _ in 0..32 {
        let v = Vec3::random_in_unit_disk(&mut rng);
        assert!(v.len_squared() < FX_ONE);
        assert_eq!(v.z, 0);
    }
}

#[test]
fn hemisphere_samples_face_the_normal() {
    let n = Vec3::new(0, 0, FX_ONE);
    let mut rng = Rng::new(5);
    for _ in 0..32 {
        let v = Vec3::random_in_hemisphere(&n, &mut rng);
        assert!(v.dot(&n) >= 0);
    }
}

#[test]
fn rgb_of_full_white_is_255() {
    let c = Vec3::new(FX_ONE, FX_ONE, FX_ONE);
    assert_eq!(c.rgb(1), [255, 255, 255]);
}

#[test]
fn rgb_of_black_is_zero() {
    let c = Vec3::new(0, 0, 0);
    assert_eq!(c.rgb(1), [0, 0, 0]);
}

#[test]
fn rgb_gamma_corrects_a_quarter_to_half() {
    // sqrt(0.25) == 0.5, and floor(256 * 0.5) == 128.
    let c = Vec3::new(16384, 16384, 16384);
    assert_eq!(c.rgb(1), [128, 128, 128]);
}

#[test]
fn rgb_averages_over_samples() {
    // A sum of four full-white samples at spp == 4 is full white again.
    let c = Vec3::new(4 * FX_ONE, 4 * FX_ONE, 4 * FX_ONE);
    assert_eq!(c.rgb(4), [255, 255, 255]);
}

#[test]
fn rgb_maps_negative_channels_to_zero() {
    let c = Vec3::new(-FX_ONE, 0, FX_ONE);
    assert_eq!(c.rgb(1), [0, 0, 255]);
}

#[test]
fn rgb_averages_over_many_samples() {
    // The average divides the channel directly by the sample count, so
    // counts beyond one in fixed point lose nothing.
    let spp: u32 = 100000;
    let full = (spp as i64) * FX_ONE;
    let c = Vec3::new(full, full / 4, 0);
    assert_eq!(c.rgb(spp), [255, 128, 0]);
}
