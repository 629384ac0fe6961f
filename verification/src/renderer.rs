//! The tile renderer: pixel coordinates are derived from a linear
//! pixel index, every pixel's RGBA bytes are the clamped, scaled
//! shading result, and a frame is the concatenation of its chunks.
//! The frame a render pass writes is pinned byte for byte by the
//! specification, so rendering the same scene and camera twice gives
//! identical buffers.

use vstd::arithmetic::div_mod::{
    lemma_div_multiples_vanish, lemma_fundamental_div_mod, lemma_mod_bound,
};
use vstd::prelude::*;

use crate::camera::Camera;
use crate::fx::SCALE;
use crate::scene::{spec_color, Scene};
use crate::vec3::{spec_vclamp01, unit_range_v3, V3};

verus! {

pub struct Renderer {}

/// One channel scaled from the unit interval to a byte.
pub open spec fn spec_channel_byte(c: int) -> u8 {
    ((c * 255) / (SCALE as int)) as u8
}

/// The four output bytes of one pixel: its coordinates recovered
/// from the linear index, the shading result clamped to the unit
/// cube, scaled to bytes, with an opaque alpha. Kept opaque so frame
/// reasoning treats pixels as values.
#[verifier::opaque]
pub open spec fn spec_pixel_rgba(scene: Scene, cam: Camera, idx: int) -> Seq<u8> {
    let w = cam.resolution.0 as int;
    let y = idx / w;
    let x = idx - y * w;
    let c = spec_vclamp01(spec_color(scene, cam, (x * (SCALE as int), y * (SCALE as int))));
    seq![
        spec_channel_byte(c.x),
        spec_channel_byte(c.y),
        spec_channel_byte(c.z),
        255u8,
    ]
}

/// The bytes of `n` consecutive pixels starting at pixel `offset`.
pub open spec fn spec_chunk_bytes(scene: Scene, cam: Camera, offset: int, n: nat) -> Seq<u8>
    decreases n,
{
    if n == 0 {
        Seq::empty()
    } else {
        spec_chunk_bytes(scene, cam, offset, (n - 1) as nat) + spec_pixel_rgba(
            scene,
            cam,
            offset + n - 1,
        )
    }
}

/// Adjacent chunks assemble seamlessly: the bytes of `a + b` pixels
/// are the bytes of the first `a` followed by the bytes of the next
/// `b`. This is what lets disjoint chunks be rendered independently
/// — in any order, or in parallel — and still compose into exactly
/// the frame a single pass would produce.
pub proof fn lemma_chunks_assemble(scene: Scene, cam: Camera, offset: int, a: nat, b: nat)
    ensures
        spec_chunk_bytes(scene, cam, offset, a + b) == spec_chunk_bytes(scene, cam, offset, a)
            + spec_chunk_bytes(scene, cam, offset + a, b),
    decreases b,
{
    if b == 0 {
        assert(spec_chunk_bytes(scene, cam, offset + a, 0) == Seq::<u8>::empty());
        assert(spec_chunk_bytes(scene, cam, offset, a) + Seq::<u8>::empty() =~= spec_chunk_bytes(
            scene,
            cam,
            offset,
            a,
        ));
    } else {
        lemma_chunks_assemble(scene, cam, offset, a, (b - 1) as nat);
        assert(spec_chunk_bytes(scene, cam, offset, a) + spec_chunk_bytes(
            scene,
            cam,
            offset + a,
            b as nat,
        ) =~= (spec_chunk_bytes(scene, cam, offset, a) + spec_chunk_bytes(
            scene,
            cam,
            offset + a,
            (b - 1) as nat,
        )) + spec_pixel_rgba(scene, cam, offset + a + b - 1));
    }
}

/// How many pixels a render pass covers in a buffer of `len` bytes
/// split into `nc` chunks: every chunk contributes its byte length
/// rounded down to whole pixels.
pub open spec fn spec_covered_pixels(len: nat, nc: nat) -> nat {
    let cs = ((len / (nc * 4)) * 4) as nat;
    if cs == 0 {
        0
    } else {
        ((len / cs) * (cs / 4) + (len % cs) / 4) as nat
    }
}

impl Renderer {
    pub fn new() -> Renderer {
        Renderer {}
    }

    /// A unit-cube color as one RGBA byte quadruple.
    pub fn to_rgba(c: V3) -> (r: (u8, u8, u8, u8))
        requires
            unit_range_v3(c.view()),
        ensures
            r.0 == spec_channel_byte(c.view().x),
            r.1 == spec_channel_byte(c.view().y),
            r.2 == spec_channel_byte(c.view().z),
            r.3 == 255u8,
    {
        proof {
            assert(0 <= (c.view().x * 255) / (SCALE as int) <= 255 && 0 <= (c.view().y * 255) / (
            SCALE as int) <= 255 && 0 <= (c.view().z * 255) / (SCALE as int) <= 255)
                by (nonlinear_arith)
                requires
                    0 <= c.view().x <= SCALE as int,
                    0 <= c.view().y <= SCALE as int,
                    0 <= c.view().z <= SCALE as int,
                    SCALE as int == 0x100000,
            ;
        }
        (
            ((c.x as u64) * 255 / (SCALE as u64)) as u8,
            ((c.y as u64) * 255 / (SCALE as u64)) as u8,
            ((c.z as u64) * 255 / (SCALE as u64)) as u8,
            255u8,
        )
    }

    /// One pixel of the frame: its coordinates are recovered from the
    /// linear index — the row is the index over the width, the column
    /// the remainder — and its color is shaded, clamped and scaled to
    /// bytes.
    pub fn render_pixel(scene: &Scene, camera: &Camera, idx: usize) -> (r: (u8, u8, u8, u8))
        requires
            scene.wf(),
            scene.has_light(),
            camera.wf(),
            (idx as int) < (camera.resolution.0 as int) * (camera.resolution.1 as int),
        ensures
            seq![r.0, r.1, r.2, r.3] == spec_pixel_rgba(*scene, *camera, idx as int),
    {
        let w: u32 = camera.resolution.0;
        let h: u32 = camera.resolution.1;
        let y: u64 = (idx as u64) / (w as u64);
        proof {
            reveal(spec_pixel_rgba);
            lemma_fundamental_div_mod(idx as int, w as int);
            lemma_mod_bound(idx as int, w as int);
            assert(y as int == (idx as int) / (w as int));
            assert((y as int) < h as int && (y as int) * (w as int) <= idx as int && (idx as int)
                - (y as int) * (w as int) < w as int) by (nonlinear_arith)
                requires
                    0 <= idx as int,
                    (idx as int) < (w as int) * (h as int),
                    0 < w as int,
                    y as int == (idx as int) / (w as int),
                    (w as int) * ((idx as int) / (w as int)) + (idx as int) % (w as int) == (
                    idx as int),
                    0 <= (idx as int) % (w as int),
                    ((idx as int) % (w as int)) < w as int,
            ;
        }
        let x: u64 = (idx as u64) - y * (w as u64);
        let cx: i64 = (x as i64) * SCALE;
        let cy: i64 = (y as i64) * SCALE;
        let p: V3 = scene.color(camera, (cx, cy));
        Self::to_rgba(p.clamp01())
    }

    /// The bytes of `num_pixels` consecutive pixels starting at pixel
    /// `offset`: the independent unit of work a parallel driver hands
    /// out per tile.
    pub fn render_chunk(scene: &Scene, camera: &Camera, num_pixels: usize, offset: usize) -> (r:
        Vec<u8>)
        requires
            scene.wf(),
            scene.has_light(),
            camera.wf(),
            offset + num_pixels <= (camera.resolution.0 as int) * (camera.resolution.1 as int),
        ensures
            r@ == spec_chunk_bytes(*scene, *camera, offset as int, num_pixels as nat),
            r@.len() == 4 * num_pixels,
    {
        let mut out: Vec<u8> = Vec::new();
        let mut pos: usize = 0;
        while pos < num_pixels
            invariant
                pos <= num_pixels,
                scene.wf(),
                scene.has_light(),
                camera.wf(),
                offset + num_pixels <= (camera.resolution.0 as int) * (
                camera.resolution.1 as int),
                out@ == spec_chunk_bytes(*scene, *camera, offset as int, pos as nat),
                out@.len() == 4 * pos,
            decreases num_pixels - pos,
        {
            proof {
                assert((camera.resolution.0 as int) * (camera.resolution.1 as int) <= 0x400000)
                    by (nonlinear_arith)
                    requires
                        0 <= camera.resolution.0 as int <= 0x800,
                        0 <= camera.resolution.1 as int <= 0x800,
                ;
            }
            let rgba: (u8, u8, u8, u8) = Self::render_pixel(scene, camera, offset + pos);
            out.push(rgba.0);
            out.push(rgba.1);
            out.push(rgba.2);
            out.push(rgba.3);
            proof {
                assert(out@ =~= spec_chunk_bytes(*scene, *camera, offset as int, (pos + 1) as nat));
            }
            pos = pos + 1;
        }
        out
    }

    /// One full render pass into the frame buffer. A pass that was
    /// told nothing changed leaves the buffer untouched; otherwise
    /// the buffer is split into `num_chunks` byte chunks rounded to
    /// whole pixels, every covered pixel is shaded, and trailing
    /// bytes that round off a partial pixel stay as they were. The
    /// result is a pure function of scene and camera, so an
    /// unchanged scene renders to an identical buffer.
    pub fn render(
        &self,
        scene: &Scene,
        img: &mut Vec<u8>,
        camera: &Camera,
        updated: bool,
        num_chunks: usize,
    )
        requires
            scene.wf(),
            scene.has_light(),
            camera.wf(),
            1 <= num_chunks <= 0x100000,
            4 * num_chunks <= old(img)@.len(),
            old(img)@.len() <= 4 * (camera.resolution.0 as int) * (camera.resolution.1 as int),
        ensures
            final(img)@.len() == old(img)@.len(),
            updated ==> final(img)@ == spec_chunk_bytes(
                *scene,
                *camera,
                0,
                spec_covered_pixels(old(img)@.len(), num_chunks as nat),
            ) + old(img)@.skip(
                4 * spec_covered_pixels(old(img)@.len(), num_chunks as nat) as int,
            ),
            !updated ==> final(img)@ == old(img)@,
    {
        if !updated {
            return ;
        }
        let len: usize = img.len();
        proof {
            let l = len as int;
            let nc4 = (num_chunks as int) * 4;
            lemma_fundamental_div_mod(l, nc4);
            lemma_mod_bound(l, nc4);
            lemma_div_multiples_vanish(1, nc4);
            assert(l / nc4 >= 1) by (nonlinear_arith)
                requires
                    nc4 * (l / nc4) + (l % nc4) == l,
                    0 <= (l % nc4) < nc4,
                    nc4 <= l,
                    0 < nc4,
            ;
            assert((l / nc4) * 4 <= l) by (nonlinear_arith)
                requires
                    nc4 * (l / nc4) + (l % nc4) == l,
                    0 <= (l % nc4),
                    4 <= nc4,
                    1 <= l / nc4,
            ;
        }
        let cs: usize = (len / (num_chunks * 4)) * 4;
        proof {
            let l = len as int;
            let c = cs as int;
            let q = l / ((num_chunks as int) * 4);
            lemma_div_multiples_vanish(q, 4);
            assert(c == 4 * q && c / 4 == q);
            lemma_fundamental_div_mod(l, c);
            lemma_mod_bound(l, c);
            lemma_fundamental_div_mod(l % c, 4);
            lemma_mod_bound(l % c, 4);
            assert(4 * ((l / c) * (c / 4)) == (l / c) * c) by (nonlinear_arith)
                requires
                    c == 4 * (c / 4),
            ;
            assert((l / c) * c <= l) by (nonlinear_arith)
                requires
                    c * (l / c) + (l % c) == l,
                    0 <= l % c,
            ;
            assert(4 * ((l % c) / 4) <= l % c) by (nonlinear_arith)
                requires
                    4 * ((l % c) / 4) + ((l % c) % 4) == l % c,
                    0 <= (l % c) % 4,
            ;
            assert(4 * ((l / c) * (c / 4) + (l % c) / 4) <= l);
            assert(((l / c) * (c / 4) + (l % c) / 4) as nat == spec_covered_pixels(
                len as nat,
                num_chunks as nat,
            ));
        }
        let covered: usize = (len / cs) * (cs / 4) + (len % cs) / 4;
        proof {
            assert((covered as int) <= (camera.resolution.0 as int) * (
            camera.resolution.1 as int)) by (nonlinear_arith)
                requires
                    4 * (covered as int) <= len as int,
                    len as int <= 4 * (camera.resolution.0 as int) * (camera.resolution.1 as int),
            ;
        }
        let mut out: Vec<u8> = Self::render_chunk(scene, camera, covered, 0);
        let mut j: usize = 4 * covered;
        while j < len
            invariant
                4 * covered <= j <= len,
                len == img@.len(),
                out@ == spec_chunk_bytes(*scene, *camera, 0, covered as nat) + img@.subrange(
                    4 * covered as int,
                    j as int,
                ),
            decreases len - j,
        {
            let b: u8 = img[j];
            out.push(b);
            proof {
                assert(out@ =~= spec_chunk_bytes(*scene, *camera, 0, covered as nat)
                    + img@.subrange(4 * covered as int, j + 1));
            }
            j = j + 1;
        }
        proof {
            assert(img@.subrange(4 * covered as int, len as int) =~= img@.skip(4 * covered as int));
        }
        *img = out;
    }
}

} // verus!
