//! Textures: a flat array of packed `0xAARRGGBB` texels sampled with
//! wrapping fixed-point coordinates. Decoding the compressed image file
//! into raw bytes is the caller's business; the byte-to-texel packing
//! and the sampling live here.

use vstd::prelude::*;
use crate::fixed::{fdiv, floor_div128, lemma_mul_fits, FX_ONE};
use crate::utils::{from_u8_rgb, to_argb8};
use vstd::arithmetic::div_mod::{lemma_fundamental_div_mod, lemma_mod_division_less_than_divisor};

verus! {

/// A decoded image: `width * height` packed texels; `depth` records how
/// many bytes each source pixel had.
pub struct Texture {
    pub width: usize,
    pub height: usize,
    pub data: Vec<u32>,
    pub depth: usize,
}

/// The packed texel a run of RGBA bytes turns into.
pub open spec fn spec_rgba_texel(bytes: Seq<u8>, i: int) -> int {
    bytes[4 * i + 3] * 0x1000000 + bytes[4 * i] * 0x10000 + bytes[4 * i + 1] * 0x100 + bytes[4 * i
        + 2]
}

/// The packed texel a run of RGB bytes turns into (alpha stays zero).
pub open spec fn spec_rgb_texel(bytes: Seq<u8>, i: int) -> int {
    bytes[3 * i] * 0x10000 + bytes[3 * i + 1] * 0x100 + bytes[3 * i + 2]
}

/// Pack 4-byte RGBA pixels into `0xAARRGGBB` texels.
pub fn texels_from_rgba8(bytes: &Vec<u8>) -> (r: Vec<u32>)
    ensures
        r@.len() == bytes@.len() as int / 4,
        forall|i: int| 0 <= i < r@.len() ==> #[trigger] r@[i] == spec_rgba_texel(bytes@, i),
{
    let n = bytes.len() / 4;
    let mut out: Vec<u32> = Vec::new();
    let mut i: usize = 0;
    while i < n
        invariant
            bytes@.len() <= usize::MAX,
            n == bytes@.len() as int / 4,
            0 <= i <= n,
            out@.len() == i,
            forall|j: int| 0 <= j < i ==> #[trigger] out@[j] == spec_rgba_texel(bytes@, j),
        decreases n - i,
    {
        assert(4 * i as int + 3 < bytes@.len()) by {
            lemma_fundamental_div_mod(bytes@.len() as int, 4);
            lemma_mod_division_less_than_divisor(bytes@.len() as int, 4);
        };
        let texel = to_argb8(bytes[4 * i + 3], bytes[4 * i], bytes[4 * i + 1], bytes[4 * i + 2]);
        out.push(texel);
        i = i + 1;
    }
    out
}

/// Pack 3-byte RGB pixels into `0x00RRGGBB` texels.
pub fn texels_from_rgb8(bytes: &Vec<u8>) -> (r: Vec<u32>)
    ensures
        r@.len() == bytes@.len() as int / 3,
        forall|i: int| 0 <= i < r@.len() ==> #[trigger] r@[i] == spec_rgb_texel(bytes@, i),
{
    let n = bytes.len() / 3;
    let mut out: Vec<u32> = Vec::new();
    let mut i: usize = 0;
    while i < n
        invariant
            bytes@.len() <= usize::MAX,
            n == bytes@.len() as int / 3,
            0 <= i <= n,
            out@.len() == i,
            forall|j: int| 0 <= j < i ==> #[trigger] out@[j] == spec_rgb_texel(bytes@, j),
        decreases n - i,
    {
        assert(3 * i as int + 2 < bytes@.len()) by {
            lemma_fundamental_div_mod(bytes@.len() as int, 3);
            lemma_mod_division_less_than_divisor(bytes@.len() as int, 3);
        };
        let texel = from_u8_rgb(bytes[3 * i], bytes[3 * i + 1], bytes[3 * i + 2]);
        out.push(texel);
        i = i + 1;
    }
    out
}

/// A fixed-point texture coordinate scaled to `n` texels and wrapped by
/// modulo into `[0, n)`.
pub open spec fn spec_wrap_texel(c: int, n: int) -> int
    recommends
        n > 0,
{
    fdiv(c * n, FX_ONE as int) % n
}

/// Scale a wrapping coordinate to `n` texels.
fn wrap_texel(c: i64, n: usize) -> (t: usize)
    requires
        0 < n <= 0x1_0000_0000,
    ensures
        t as int == spec_wrap_texel(c as int, n as int),
        t < n,
{
    proof {
        lemma_mul_fits(c as int, n as int, 0x8000_0000_0000_0000, 0x1_0000_0000);
    }
    let p: i128 = c as i128 * n as i128;
    let s: i128 = floor_div128(p, FX_ONE as i128);
    proof {
        lemma_fundamental_div_mod(p as int, FX_ONE as int);
        assert(-0x1_0000_0000_0000_0000_0000 <= s <= 0x1_0000_0000_0000_0000_0000);
    }
    let q: i128 = floor_div128(s, n as i128);
    proof {
        lemma_mul_fits(q as int, n as int, 0x1_0000_0000_0000_0000_0000, 0x1_0000_0000);
        lemma_fundamental_div_mod(s as int, n as int);
        lemma_mod_division_less_than_divisor(s as int, n as int);
    }
    let m: i128 = s - q * (n as i128);
    proof {
        assert(m as int == s as int % n as int);
    }
    m as usize
}

/// The sampled texel: wrap both coordinates, flatten, and fall back to a
/// sentinel color when the texel index runs off the data array.
pub open spec fn spec_rgb_at_uv(width: int, height: int, data: Seq<u32>, u: int, v: int) -> int
    recommends
        width > 0,
        height > 0,
{
    let tu = spec_wrap_texel(u, width);
    let tv = spec_wrap_texel(v, height);
    let id = tu + tv * width;
    if id < data.len() {
        data[id] as int
    } else {
        0xFFFF
    }
}

impl Texture {
    /// Pack decoded image bytes into a texture; 4-byte pixels keep their
    /// alpha channel, anything else is read as 3-byte RGB.
    pub fn from_bytes(width: usize, height: usize, depth: usize, bytes: &Vec<u8>) -> (r: Texture)
        ensures
            r.width == width,
            r.height == height,
            r.depth == depth,
            depth == 4 ==> r.data@.len() == bytes@.len() as int / 4,
            depth == 4 ==> forall|i: int|
                0 <= i < r.data@.len() ==> #[trigger] r.data@[i] == spec_rgba_texel(bytes@, i),
            depth != 4 ==> r.data@.len() == bytes@.len() as int / 3,
            depth != 4 ==> forall|i: int|
                0 <= i < r.data@.len() ==> #[trigger] r.data@[i] == spec_rgb_texel(bytes@, i),
    {
        let data = if depth == 4 {
            texels_from_rgba8(bytes)
        } else {
            texels_from_rgb8(bytes)
        };
        Texture { width, height, data, depth }
    }

    /// Sample the texture at a wrapping fixed-point coordinate pair.
    pub fn rgb_at_uv(&self, u: i64, v: i64) -> (r: u32)
        requires
            0 < self.width <= 0x1_0000_0000,
            0 < self.height <= 0x1_0000_0000,
            self.width * self.height <= usize::MAX,
        ensures
            r as int == spec_rgb_at_uv(
                self.width as int,
                self.height as int,
                self.data@,
                u as int,
                v as int,
            ),
    {
        let tu = wrap_texel(u, self.width);
        let tv = wrap_texel(v, self.height);
        proof {
            let w = self.width as int;
            let h = self.height as int;
            assert((tv as int) * w + (tu as int) < w * h) by (nonlinear_arith)
                requires
                    0 <= tv as int <= h - 1,
                    0 <= tu as int <= w - 1,
                    0 < w,
                    0 < h,
            ;
            assert(w * h <= usize::MAX);
        }
        let row: usize = tv * self.width;
        let id: usize = tu + row;
        if id < self.data.len() {
            self.data[id]
        } else {
            from_u8_rgb(0, 255, 255)
        }
    }
}

} // verus!
