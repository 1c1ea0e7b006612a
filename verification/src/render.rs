//! The renderer: for every pixel, average many jittered camera rays and
//! write RGB bytes into a row-major buffer, top row first.

use vstd::prelude::*;

use crate::camera::cast_spec;
use crate::camera::Camera;
use crate::camera::CameraV;
use crate::fixed::fadd;
use crate::fixed::fdiv;
use crate::fixed::fx_add;
use crate::fixed::fx_div;
use crate::fixed::FX_ONE;
use crate::fixed::SCALE;
use crate::primitive::world_wf;
use crate::primitive::SphereV;
use crate::primitive::World;
use crate::rng::next_state;
use crate::rng::rand_fx;
use crate::rng::Rng;
use crate::tracer::ray_color;
use crate::tracer::ray_color_spec;
use crate::vec3::rgb_spec;
use crate::vec3::state2;
use crate::vec3::vadd;
use crate::vec3::vzero;
use crate::vec3::Vec3;
use crate::vec3::V3;

verus! {

/// The per-pixel seed: the render seed plus the pixel's row-major index,
/// wrapped to 64 bits and then mixed through two generator steps, so that
/// the states of adjacent pixels are driven apart before any draw. Each
/// pixel owns an independent generator, so pixels can be evaluated in any
/// order — or in parallel — without sharing state.
pub open spec fn pixel_seed(seed: u64, idx: u64) -> u64 {
    next_state(next_state(((seed as int + idx as int) % 0x1_0000_0000_0000_0000) as u64))
}

/// The color accumulated over the first `k` samples of pixel `(i, j)`:
/// each sample jitters the pixel's normalized coordinates, casts a camera
/// ray, and adds its radiance estimate.
#[verifier::opaque]
pub open spec fn sample_accum_spec(
    w: Seq<SphereV>,
    c: CameraV,
    width: u32,
    height: u32,
    depth: u32,
    i: u32,
    j: u32,
    k: nat,
    s: u64,
) -> (V3, u64)
    decreases k,
{
    if k == 0 {
        (vzero(), s)
    } else {
        let prev = sample_accum_spec(w, c, width, height, depth, i, j, (k - 1) as nat, s);
        let s0 = prev.1;
        let ju = rand_fx(s0, 0, FX_ONE as int);
        let jv = rand_fx(next_state(s0), 0, FX_ONE as int);
        let u = fdiv(fadd((i as int) * (SCALE as int), ju), (width - 1) * (SCALE as int));
        let v = fdiv(fadd((j as int) * (SCALE as int), jv), (height - 1) * (SCALE as int));
        let cast = cast_spec(c, u, v, state2(s0));
        let col = ray_color_spec(cast.0, w, depth, cast.1);
        (vadd(prev.0, col.0), col.1)
    }
}

/// The three bytes pixel `(i, j)` contributes to the buffer.
#[verifier::opaque]
pub open spec fn pixel_spec(
    w: Seq<SphereV>,
    c: CameraV,
    width: u32,
    height: u32,
    spp: u32,
    depth: u32,
    seed: u64,
    i: u32,
    j: u32,
) -> Seq<u8> {
    let s0 = pixel_seed(seed, ((j as int) * (width as int) + (i as int)) as u64);
    let acc = sample_accum_spec(w, c, width, height, depth, i, j, spp as nat, s0);
    rgb_spec(acc.0, spp)
}

/// The bytes of the first `n` pixels of the row with scene coordinate `j`.
pub open spec fn row_spec(
    w: Seq<SphereV>,
    c: CameraV,
    width: u32,
    height: u32,
    spp: u32,
    depth: u32,
    seed: u64,
    j: u32,
    n: nat,
) -> Seq<u8>
    decreases n,
{
    if n == 0 {
        Seq::empty()
    } else {
        row_spec(w, c, width, height, spp, depth, seed, j, (n - 1) as nat) + pixel_spec(
            w,
            c,
            width,
            height,
            spp,
            depth,
            seed,
            (n - 1) as u32,
            j,
        )
    }
}

/// The bytes of the first `rows` image rows, top row first: the top row is
/// the one with the largest scene coordinate.
pub open spec fn render_spec(
    w: Seq<SphereV>,
    c: CameraV,
    width: u32,
    height: u32,
    spp: u32,
    depth: u32,
    seed: u64,
    rows: nat,
) -> Seq<u8>
    decreases rows,
{
    if rows == 0 {
        Seq::empty()
    } else {
        render_spec(w, c, width, height, spp, depth, seed, (rows - 1) as nat) + row_spec(
            w,
            c,
            width,
            height,
            spp,
            depth,
            seed,
            (height - rows) as u32,
            width as nat,
        )
    }
}

pub proof fn lemma_row_len(
    w: Seq<SphereV>,
    c: CameraV,
    width: u32,
    height: u32,
    spp: u32,
    depth: u32,
    seed: u64,
    j: u32,
    n: nat,
)
    ensures
        row_spec(w, c, width, height, spp, depth, seed, j, n).len() == 3 * n,
    decreases n,
{
    if n > 0 {
        lemma_row_len(w, c, width, height, spp, depth, seed, j, (n - 1) as nat);
        reveal(pixel_spec);
    }
}

pub proof fn lemma_render_len(
    w: Seq<SphereV>,
    c: CameraV,
    width: u32,
    height: u32,
    spp: u32,
    depth: u32,
    seed: u64,
    rows: nat,
)
    ensures
        render_spec(w, c, width, height, spp, depth, seed, rows).len() == 3 * (width as int)
            * rows,
    decreases rows,
{
    if rows > 0 {
        lemma_render_len(w, c, width, height, spp, depth, seed, (rows - 1) as nat);
        lemma_row_len(w, c, width, height, spp, depth, seed, (height - rows) as u32, width as nat);
        assert(3 * (width as int) * (rows - 1) + 3 * (width as int) == 3 * (width as int)
            * rows) by (nonlinear_arith);
    } else {
        assert(3 * (width as int) * 0 == 0) by (nonlinear_arith);
    }
}

/// One pixel's bytes, computed from that pixel's own seeded generator.
#[verifier::rlimit(40)]
pub fn render_pixel(
    world: &World,
    camera: &Camera,
    width: u32,
    height: u32,
    spp: u32,
    depth: u32,
    seed: u64,
    i: u32,
    j: u32,
) -> (px: [u8; 3])
    requires
        world_wf(world@),
        2 <= width <= 0xffff,
        2 <= height <= 0xffff,
        spp >= 1,
        i < width,
        j < height,
    ensures
        px@ == pixel_spec(world@, camera@, width, height, spp, depth, seed, i, j),
{
    proof {
        assert((j as nat) * (width as nat) <= 0xffff * 0xffff) by (nonlinear_arith)
            requires
                (j as nat) <= 0xffff,
                (width as nat) <= 0xffff,
        ;
    }
    let idx: u64 = (j as u64) * (width as u64) + (i as u64);
    let base: u64 = (((seed as u128) + (idx as u128)) % 0x1_0000_0000_0000_0000) as u64;
    let mut rng = Rng::new(base);
    // Two discarded draws mix the pixel index into the state, driving the
    // generators of adjacent pixels apart before any sample is taken.
    let _ = rng.next_u32();
    let _ = rng.next_u32();
    let ghost s0: u64 = rng.state;
    proof {
        assert(s0 == pixel_seed(seed, idx));
    }
    let mut color = Vec3::new(0, 0, 0);
    let mut k: u32 = 0;
    proof {
        reveal(sample_accum_spec);
    }
    while k < spp
        invariant
            k <= spp,
            world_wf(world@),
            2 <= width <= 0xffff,
            2 <= height <= 0xffff,
            i < width,
            j < height,
            color@ == sample_accum_spec(
                world@,
                camera@,
                width,
                height,
                depth,
                i,
                j,
                k as nat,
                s0,
            ).0,
            rng.state == sample_accum_spec(
                world@,
                camera@,
                width,
                height,
                depth,
                i,
                j,
                k as nat,
                s0,
            ).1,
        decreases spp - k,
    {
        let ju = rng.next_fx(0, FX_ONE);
        let jv = rng.next_fx(0, FX_ONE);
        let u = fx_div(fx_add((i as i64) * SCALE, ju), ((width as i64) - 1) * SCALE);
        let v = fx_div(fx_add((j as i64) * SCALE, jv), ((height as i64) - 1) * SCALE);
        let ray = camera.cast(u, v, &mut rng);
        let c = ray_color(&ray, world, depth, &mut rng);
        color = color.add(&c);
        k += 1;
        proof {
            reveal(sample_accum_spec);
        }
    }
    proof {
        reveal(pixel_spec);
    }
    color.rgb(spp)
}

/// Render the scene into a row-major RGB byte buffer, top row first. The
/// whole buffer is a function of the scene, the camera, the dimensions,
/// the sampling parameters and the seed.
pub fn render(
    world: &World,
    camera: &Camera,
    width: u32,
    height: u32,
    spp: u32,
    depth: u32,
    seed: u64,
) -> (buf: Vec<u8>)
    requires
        world_wf(world@),
        2 <= width <= 0xffff,
        2 <= height <= 0xffff,
        spp >= 1,
    ensures
        buf@ == render_spec(world@, camera@, width, height, spp, depth, seed, height as nat),
        buf@.len() == 3 * (width as int) * (height as int),
{
    let mut buf: Vec<u8> = Vec::new();
    let mut r: u32 = 0;
    while r < height
        invariant
            r <= height,
            world_wf(world@),
            2 <= width <= 0xffff,
            2 <= height <= 0xffff,
            spp >= 1,
            buf@ == render_spec(world@, camera@, width, height, spp, depth, seed, r as nat),
        decreases height - r,
    {
        let j: u32 = height - 1 - r;
        let mut ci: u32 = 0;
        while ci < width
            invariant
                ci <= width,
                r < height,
                j == height - 1 - r,
                world_wf(world@),
                2 <= width <= 0xffff,
                2 <= height <= 0xffff,
                spp >= 1,
                buf@ == render_spec(world@, camera@, width, height, spp, depth, seed, r as nat)
                    + row_spec(world@, camera@, width, height, spp, depth, seed, j, ci as nat),
            decreases width - ci,
        {
            let px = render_pixel(world, camera, width, height, spp, depth, seed, ci, j);
            let b0 = px[0];
            let b1 = px[1];
            let b2 = px[2];
            buf.push(b0);
            buf.push(b1);
            buf.push(b2);
            proof {
                assert(pixel_spec(
                    world@,
                    camera@,
                    width,
                    height,
                    spp,
                    depth,
                    seed,
                    ci,
                    j,
                ).len() == 3);
                assert(buf@ =~= render_spec(
                    world@,
                    camera@,
                    width,
                    height,
                    spp,
                    depth,
                    seed,
                    r as nat,
                ) + row_spec(
                    world@,
                    camera@,
                    width,
                    height,
                    spp,
                    depth,
                    seed,
                    j,
                    (ci + 1) as nat,
                ));
            }
            ci += 1;
        }
        proof {
            assert(height - (r + 1) == j);
        }
        r += 1;
    }
    proof {
        lemma_render_len(world@, camera@, width, height, spp, depth, seed, height as nat);
    }
    buf
}

/// Widen a row-major RGB buffer to RGBA, with the alpha channel always
/// fully opaque; pixel order is unchanged.
pub fn rgba_from_rgb(rgb: &Vec<u8>) -> (out: Vec<u8>)
    requires
        rgb@.len() % 3 == 0,
    ensures
        out@.len() == rgb@.len() / 3 * 4,
        forall|p: int|
            0 <= p < rgb@.len() / 3 ==> {
                &&& #[trigger] out@[4 * p] == rgb@[3 * p]
                &&& out@[4 * p + 1] == rgb@[3 * p + 1]
                &&& out@[4 * p + 2] == rgb@[3 * p + 2]
                &&& out@[4 * p + 3] == 255
            },
{
    let n = rgb.len() / 3;
    proof {
        vstd::arithmetic::div_mod::lemma_fundamental_div_mod(rgb@.len() as int, 3);
    }
    let mut out: Vec<u8> = Vec::new();
    let mut p: usize = 0;
    while p < n
        invariant
            p <= n,
            n == rgb@.len() / 3,
            rgb@.len() == 3 * n,
            rgb@.len() <= usize::MAX,
            out@.len() == 4 * p,
            forall|q: int|
                0 <= q < p ==> {
                    &&& #[trigger] out@[4 * q] == rgb@[3 * q]
                    &&& out@[4 * q + 1] == rgb@[3 * q + 1]
                    &&& out@[4 * q + 2] == rgb@[3 * q + 2]
                    &&& out@[4 * q + 3] == 255
                },
        decreases n - p,
    {
        out.push(rgb[3 * p]);
        out.push(rgb[3 * p + 1]);
        out.push(rgb[3 * p + 2]);
        out.push(255);
        proof {
            assert forall|q: int| 0 <= q < p + 1 implies {
                &&& #[trigger] out@[4 * q] == rgb@[3 * q]
                &&& out@[4 * q + 1] == rgb@[3 * q + 1]
                &&& out@[4 * q + 2] == rgb@[3 * q + 2]
                &&& out@[4 * q + 3] == 255
            } by {
                assert(out@[4 * q] == rgb@[3 * q]);
                assert(out@[4 * q + 1] == rgb@[3 * q + 1]);
                assert(out@[4 * q + 2] == rgb@[3 * q + 2]);
                assert(out@[4 * q + 3] == 255);
            }
        }
        p += 1;
    }
    out
}

/// Rendering is deterministic: two buffers produced from the same scene,
/// camera, dimensions, sampling parameters and seed are identical, byte
/// for byte.
pub proof fn lemma_render_deterministic(
    b1: Seq<u8>,
    b2: Seq<u8>,
    w: Seq<SphereV>,
    c: CameraV,
    width: u32,
    height: u32,
    spp: u32,
    depth: u32,
    seed: u64,
)
    requires
        b1 == render_spec(w, c, width, height, spp, depth, seed, height as nat),
        b2 == render_spec(w, c, width, height, spp, depth, seed, height as nat),
    ensures
        b1 == b2,
{
}

} // verus!
