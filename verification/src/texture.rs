//! Texel buffers: tightly packed RGB bytes addressed by pixel, with
//! tiling lookup by fixed-point surface coordinates. Decoding image
//! files into such a buffer is an outside concern; the library only
//! validates and reads one.

use vstd::prelude::*;

use crate::fx;
use crate::fx::{ONE, SCALE};
use crate::vec3::{V3, V3i};

verus! {

#[derive(Clone, Debug)]
pub struct Texture {
    pub path: String,
    pub width: u32,
    pub height: u32,
    pub bytes: Vec<u8>,
}

impl Texture {
    /// The packing invariant: three bytes per texel, row-major.
    pub open spec fn wf(self) -> bool {
        self.bytes@.len() == 3 * (self.width as int) * (self.height as int)
    }

    /// An empty placeholder carrying only the path it should be
    /// loaded from.
    pub fn new(path: String) -> (r: Texture)
        ensures
            r.path == path,
            r.width == 0,
            r.height == 0,
            r.bytes@ == Seq::<u8>::empty(),
            r.wf(),
    {
        Texture { path, width: 0, height: 0, bytes: Vec::new() }
    }

    /// The validated constructor: accepts a decoded buffer exactly
    /// when it packs `width * height` RGB texels.
    pub fn from_bytes(path: String, width: u32, height: u32, bytes: Vec<u8>) -> (r: Option<
        Texture,
    >)
        ensures
            match r {
                Option::Some(t) => {
                    &&& t.path == path
                    &&& t.width == width
                    &&& t.height == height
                    &&& t.bytes@ == bytes@
                    &&& t.wf()
                },
                Option::None => bytes@.len() != 3 * (width as int) * (height as int),
            },
    {
        let len: usize = bytes.len();
        match (width as usize).checked_mul(height as usize) {
            Some(wh) => {
                match wh.checked_mul(3) {
                    Some(n) => {
                        proof {
                            assert((width as int) * (height as int) * 3 == 3 * (width as int) * (
                            height as int)) by (nonlinear_arith);
                        }
                        if bytes.len() == n {
                            Some(Texture { path, width, height, bytes })
                        } else {
                            None
                        }
                    },
                    None => {
                        proof {
                            assert((width as int) * (height as int) * 3 == 3 * (width as int) * (
                            height as int)) by (nonlinear_arith);
                            assert((len as int) < 3 * (width as int) * (height as int));
                        }
                        None
                    },
                }
            },
            None => {
                proof {
                    assert((len as int) <= (usize::MAX as int) < (width as int) * (
                    height as int));
                    assert((width as int) * (height as int) <= 3 * (width as int) * (
                    height as int)) by (nonlinear_arith)
                        requires
                            0 <= (width as int) * (height as int),
                    ;
                }
                None
            },
        }
    }

    /// Tiling of a fixed-point coordinate into `[0, ONE]`: negative
    /// coordinates wrap from the far edge, coordinates past one keep
    /// only their fractional part.
    pub open spec fn spec_textel(p: int) -> int {
        if p < 0 {
            ONE as int - ((-p) % (ONE as int))
        } else if p > ONE as int {
            p % (ONE as int)
        } else {
            p
        }
    }

    fn textel(&self, p: i64) -> (r: i64)
        requires
            fx::fits(p as int),
        ensures
            r as int == Texture::spec_textel(p as int),
            0 <= r as int <= ONE as int,
    {
        if p < 0 {
            ONE - (((-p) as u64 % (ONE as u64)) as i64)
        } else if p > ONE {
            ((p as u64) % (ONE as u64)) as i64
        } else {
            p
        }
    }

    /// The three bytes of texel `(x, y)`, each scaled into a
    /// unit-interval fixed-point channel.
    pub open spec fn spec_pixel(self, x: int, y: int) -> V3i {
        let pos = y * 3 * (self.width as int) + x * 3;
        V3i {
            x: (self.bytes@[pos] as int) * (SCALE as int) / 255,
            y: (self.bytes@[pos + 1] as int) * (SCALE as int) / 255,
            z: (self.bytes@[pos + 2] as int) * (SCALE as int) / 255,
        }
    }

    pub fn pixel(&self, x: u32, y: u32) -> (r: V3)
        requires
            self.wf(),
            (x as int) < self.width as int,
            (y as int) < self.height as int,
        ensures
            r.view() == self.spec_pixel(x as int, y as int),
            crate::vec3::unit_range_v3(r.view()),
            r.wf(),
    {
        let len: usize = self.bytes.len();
        proof {
            assert((y as int) * 3 <= (y as int) * 3 * (self.width as int) && (y as int) * 3 * (
            self.width as int) + (x as int) * 3 + 2 < 3 * (self.width as int) * (
            self.height as int)) by (nonlinear_arith)
                requires
                    0 <= x as int,
                    0 <= y as int,
                    1 <= self.width as int,
                    (x as int) < self.width as int,
                    (y as int) < self.height as int,
            ;
        }
        let pos: usize = (y as usize) * 3 * (self.width as usize) + (x as usize) * 3;
        let bx: u8 = self.bytes[pos];
        let by: u8 = self.bytes[pos + 1];
        let bz: u8 = self.bytes[pos + 2];
        proof {
            assert((bx as int) * (SCALE as int) / 255 <= SCALE as int && 0 <= (bx as int) * (
            SCALE as int) / 255) by (nonlinear_arith)
                requires
                    0 <= bx as int <= 255,
                    SCALE as int == 0x100000,
            ;
            assert((by as int) * (SCALE as int) / 255 <= SCALE as int && 0 <= (by as int) * (
            SCALE as int) / 255) by (nonlinear_arith)
                requires
                    0 <= by as int <= 255,
                    SCALE as int == 0x100000,
            ;
            assert((bz as int) * (SCALE as int) / 255 <= SCALE as int && 0 <= (bz as int) * (
            SCALE as int) / 255) by (nonlinear_arith)
                requires
                    0 <= bz as int <= 255,
                    SCALE as int == 0x100000,
            ;
        }
        let cx: i64 = ((bx as u64) * (SCALE as u64) / 255) as i64;
        let cy: i64 = ((by as u64) * (SCALE as u64) / 255) as i64;
        let cz: i64 = ((bz as u64) * (SCALE as u64) / 255) as i64;
        V3 { x: cx, y: cy, z: cz }
    }

    /// Where a surface coordinate pair lands in the texel grid.
    pub open spec fn spec_uv_index(self, u: int, v: int) -> (int, int) {
        (
            ((self.width as int) - 1) * Texture::spec_textel(u) / (SCALE as int),
            ((self.height as int) - 1) * Texture::spec_textel(v) / (SCALE as int),
        )
    }

    /// Nearest-texel lookup by tiled surface coordinates.
    pub fn from_uv(&self, u: i64, v: i64) -> (r: V3)
        requires
            self.wf(),
            self.width >= 1,
            self.height >= 1,
            fx::fits(u as int),
            fx::fits(v as int),
        ensures
            r.view() == self.spec_pixel(
                self.spec_uv_index(u as int, v as int).0,
                self.spec_uv_index(u as int, v as int).1,
            ),
            r.wf(),
    {
        let uu: i64 = self.textel(u);
        let vv: i64 = self.textel(v);
        proof {
            assert(((self.width as int) - 1) * (uu as int) / (SCALE as int) <= (self.width as int)
                - 1 && 0 <= ((self.width as int) - 1) * (uu as int) && ((self.width as int) - 1) * (
            uu as int) <= 0xFFFFFFFF * 0x100000) by (nonlinear_arith)
                requires
                    1 <= self.width as int <= 0x100000000,
                    0 <= uu as int <= SCALE as int,
                    SCALE as int == 0x100000,
            ;
            assert(((self.height as int) - 1) * (vv as int) / (SCALE as int) <= (
            self.height as int) - 1 && 0 <= ((self.height as int) - 1) * (vv as int) && ((
            self.height as int) - 1) * (vv as int) <= 0xFFFFFFFF * 0x100000) by (nonlinear_arith)
                requires
                    1 <= self.height as int <= 0x100000000,
                    0 <= vv as int <= SCALE as int,
                    SCALE as int == 0x100000,
            ;
        }
        let x64: u64 = ((self.width - 1) as u64) * (uu as u64) / (SCALE as u64);
        let y64: u64 = ((self.height - 1) as u64) * (vv as u64) / (SCALE as u64);
        let x: u32 = x64 as u32;
        let y: u32 = y64 as u32;
        self.pixel(x, y)
    }
}

} // verus!
