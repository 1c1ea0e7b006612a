//! The camera and the full renderer: geometry, determinism, buffer shape.

use rain::camera::Camera;
use rain::fixed::FX_ONE;
use rain::material::{Dielectric, Lambertian, Metal};
use rain::primitive::{Sphere, World};
use rain::render::{render, render_pixel, rgba_from_rgb};
use rain::rng::Rng;
use rain::vec3::Vec3;

fn simple_camera() -> Camera {
    // 90 degree field of view (half-height tan == 1), square aspect,
    // no aperture, focus at one: the canonical axis-aligned camera.
    Camera::new(
        Vec3::new(0, 0, 0),
        Vec3::new(0, 0, -FX_ONE),
        Vec3::new(0, FX_ONE, 0),
        FX_ONE,
        FX_ONE,
        0,
        FX_ONE,
    )
}

fn small_scene() -> World {
    let mut world = World::new();
    world.add(Sphere::new(
        Vec3::new(0, -100 * FX_ONE, -2 * FX_ONE),
        99 * FX_ONE,
        Lambertian::new(Vec3::new(32768, 45875, 0)),
    ));
    world.add(Sphere::new(
        Vec3::new(0, 0, -2 * FX_ONE),
        32768,
        Metal::new(Vec3::new(45875, 45875, 45875), 16384),
    ));
    world.add(Sphere::new(
        Vec3::new(FX_ONE, 0, -2 * FX_ONE),
        32768,
        Dielectric::new(98304),
    ));
    world
}

#[test]
fn camera_center_ray_points_forward() {
    let camera = simple_camera();
    let mut rng = Rng::new(0);
    let ray = camera.cast(32768, 32768, &mut rng);
    assert_eq!((ray.orig.x, ray.orig.y, ray.orig.z), (0, 0, 0));
    assert_eq!((ray.dir.x, ray.dir.y, ray.dir.z), (0, 0, -FX_ONE));
}

#[test]
fn camera_with_zero_aperture_keeps_its_origin() {
    let camera = simple_camera();
    assert_eq!(camera.lens_radius, 0);
    let mut rng = Rng::new(8);
    let corner = camera.cast(0, 0, &mut rng);
    assert_eq!((corner.orig.x, corner.orig.y, corner.orig.z), (0, 0, 0));
    assert_eq!(
        (corner.dir.x, corner.dir.y, corner.dir.z),
        (-FX_ONE, -FX_ONE, -FX_ONE),
    );
}

#[test]
fn render_buffer_has_row_major_rgb_shape() {
    let world = small_scene();
    let camera = simple_camera();
    let buf = render(&world, &camera, 4, 3, 1, 4, 7);
    assert_eq!(buf.len(), 4 * 3 * 3);
}

#[test]
fn rendering_twice_with_one_seed_is_bit_identical() {
    let world = small_scene();
    let camera = simple_camera();
    let a = render(&world, &camera, 6, 4, 2, 5, 12345);
    let b = render(&world, &camera, 6, 4, 2, 5, 12345);
    assert_eq!(a, b);
}

#[test]
fn pixels_match_the_full_render() {
    // The buffer renders top row first; pixel (i, j) of the scene sits at
    // row (height - 1 - j) of the image.
    let world = small_scene();
    let camera = simple_camera();
    let width = 5;
    let height = 4;
    let buf = render(&world, &camera, width, height, 2, 5, 99);
    for j in 0..height {
        for i in 0..width {
            let px = render_pixel(&world, &camera, width, height, 2, 5, 99, i, j);
            let row = (height - 1 - j) as usize;
            let base = 3 * (row * width as usize + i as usize);
            assert_eq!(&buf[base..base + 3], &px);
        }
    }
}

#[test]
fn rgba_widens_pixels_with_opaque_alpha() {
    let rgb: Vec<u8> = vec![1, 2, 3, 4, 5, 6];
    let rgba = rgba_from_rgb(&rgb);
    assert_eq!(rgba, vec![1, 2, 3, 255, 4, 5, 6, 255]);
}

#[test]
fn empty_scene_renders_the_gradient() {
    // Without geometry and with one sample per pixel the buffer is just
    // the gamma-corrected sky gradient; the top rows lean toward the sky
    // blue, so their blue channel dominates their red channel.
    let world = World::new();
    let camera = simple_camera();
    let buf = render(&world, &camera, 3, 3, 1, 2, 0);
    assert_eq!(buf.len(), 27);
    assert!(buf[2] > buf[0]);
}
