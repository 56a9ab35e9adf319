//! Rasterization core: screen bounding boxes, perspective preparation,
//! the depth-tested scan-conversion loop, and the mesh-level driver.

use vstd::prelude::*;
use vstd::arithmetic::div_mod::{
    lemma_div_is_ordered, lemma_div_pos_is_pos, lemma_fundamental_div_mod,
    lemma_fundamental_div_mod_converse_div, lemma_fundamental_div_mod_converse_mod,
};
use crate::fixed::{
    fdiv, floor_div128, fx_add, fx_div, fx_mul, spec_add, spec_div, spec_mul, FX_HALF, FX_ONE,
};
use crate::clip::{clip_cull_triangle, spec_clip_cull, ClipResult};
use crate::geometry::{
    fx_max, fx_min, spec_bounding_box, spec_max2, spec_min2, spec_transform, spec_vertex_scale,
    BoundingBox2D, Mesh, Triangle, Vertex,
};
use crate::texture::{spec_rgb_at_uv, Texture};
use crate::utils::{
    alpha_of, barycentric_coords, blue_of, check_vec2_in_range, coords_to_index, edge_function,
    from_u8_rgb, green_of, map_to_range, red_of, spec_barycentric, spec_edge, spec_map_to_range,
    to_argb8, vec2_in_range,
};
use crate::vectors::{
    spec_mat4_mul_vec4, spec_vec2_add, spec_vec2_scale, spec_vec3_add, spec_vec3_dot,
    spec_vec3_scale, Mat4Fx, Vec2Fx, Vec3Fx, Vec4Fx,
};

verus! {

/// Largest viewport side the fixed-point screen space can address: a
/// pixel center `x + 0.5` must stay within the edge-function range
/// `COORD_LIMIT`, which exact 64-bit edge algebra caps at +/-8192 px.
pub const MAX_VIEWPORT: usize = 8192;

/// The explicit lighting configuration of the shading step: a fixed
/// (pre-normalized) light direction and a constant ambient term.
#[derive(Clone, Copy, PartialEq, Eq, Structural, Debug)]
pub struct Lighting {
    pub light_dir: Vec3Fx,
    pub ambient: Vec3Fx,
}

impl Lighting {
    pub fn new(light_dir: Vec3Fx, ambient: Vec3Fx) -> (r: Lighting)
        ensures
            r == (Lighting { light_dir, ambient }),
    {
        Lighting { light_dir, ambient }
    }

    /// The stock scene lighting: light from `(1, 1, 1)` (normalized, so
    /// every component is `1/sqrt(3)`) and 30% ambient.
    pub fn standard() -> (r: Lighting)
        ensures
            r == (Lighting {
                light_dir: Vec3Fx { x: 37837, y: 37837, z: 37837 },
                ambient: Vec3Fx { x: 19661, y: 19661, z: 19661 },
            }),
    {
        Lighting {
            light_dir: Vec3Fx { x: 37837, y: 37837, z: 37837 },
            ambient: Vec3Fx { x: 19661, y: 19661, z: 19661 },
        }
    }
}

/// The triangle's screen bounding box intersected with the viewport
/// `[0, width) x [0, height)` (in fixed-point pixel coordinates); `None`
/// exactly when the box misses the viewport, i.e. when
/// `left >= width || right < 0 || top >= height || bottom < 0`, so a
/// box that only reaches into the last pixel column or row still scans.
pub open spec fn spec_screen_bbox(
    p0: Vec2Fx,
    p1: Vec2Fx,
    p2: Vec2Fx,
    width: int,
    height: int,
) -> Option<BoundingBox2D> {
    let bb = spec_bounding_box(p0, p1, p2);
    let left = spec_max2(bb.left as int, 0);
    let right = spec_min2(bb.right as int, width * 65536 - 1);
    let top = spec_max2(bb.top as int, 0);
    let bottom = spec_min2(bb.bottom as int, height * 65536 - 1);
    if left > right || top > bottom {
        None
    } else {
        Some(
            BoundingBox2D {
                left: left as i64,
                right: right as i64,
                top: top as i64,
                bottom: bottom as i64,
            },
        )
    }
}

/// Intersect a triangle's screen bounding box with the viewport; an
/// empty intersection means nothing of the triangle is visible.
pub fn triangle_screen_bounding_box(
    p0: Vec2Fx,
    p1: Vec2Fx,
    p2: Vec2Fx,
    width: usize,
    height: usize,
) -> (r: Option<BoundingBox2D>)
    requires
        1 <= width <= MAX_VIEWPORT,
        1 <= height <= MAX_VIEWPORT,
    ensures
        r == spec_screen_bbox(p0, p1, p2, width as int, height as int),
{
    let bb = crate::geometry::get_triangle_bounding_box_2d(p0, p1, p2);
    let left = fx_max(bb.left, 0);
    let right = fx_min(bb.right, (width as i64) * FX_ONE - 1);
    let top = fx_max(bb.top, 0);
    let bottom = fx_min(bb.bottom, (height as i64) * FX_ONE - 1);
    if left > right || top > bottom {
        None
    } else {
        Some(BoundingBox2D { left, right, top, bottom })
    }
}

/// One clip-space triangle carried into screen space: reciprocal `w`,
/// perspective-divided attributes, pixel coordinates and depths.
#[derive(Clone, Copy, PartialEq, Eq, Structural, Debug)]
pub struct ScreenTriangle {
    pub sc0: Vec2Fx,
    pub sc1: Vec2Fx,
    pub sc2: Vec2Fx,
    pub z0: i64,
    pub z1: i64,
    pub z2: i64,
    pub rec0: i64,
    pub rec1: i64,
    pub rec2: i64,
    pub pv0: Vertex,
    pub pv1: Vertex,
    pub pv2: Vertex,
}

/// The screen-space x coordinate of a normalized device coordinate.
pub open spec fn spec_screen_coord(ndc: int, size: int) -> int {
    spec_map_to_range(ndc, -65536, 65536, 0, size * 65536)
}

/// One vertex carried into screen space.
pub open spec fn spec_screen_vertex(v: Vertex, width: int, height: int) -> (Vec2Fx, i64, i64) {
    let rec = spec_div(FX_ONE as int, v.pos.w as int);
    let ndc_x = spec_mul(v.pos.x as int, rec);
    let ndc_y = spec_mul(v.pos.y as int, rec);
    let ndc_z = spec_mul(v.pos.z as int, rec);
    (
        Vec2Fx {
            x: spec_screen_coord(ndc_x, width) as i64,
            y: spec_screen_coord(ndc_y, height) as i64,
        },
        ndc_z as i64,
        rec as i64,
    )
}

/// A whole triangle carried into screen space; a vertex with `w == 0`
/// cannot be perspective-divided, so such a triangle is rejected.
pub open spec fn spec_prepare(t: Triangle, width: int, height: int) -> Option<ScreenTriangle> {
    if t.v0.pos.w == 0 || t.v1.pos.w == 0 || t.v2.pos.w == 0 {
        None
    } else {
        let s0 = spec_screen_vertex(t.v0, width, height);
        let s1 = spec_screen_vertex(t.v1, width, height);
        let s2 = spec_screen_vertex(t.v2, width, height);
        Some(
            ScreenTriangle {
                sc0: s0.0,
                sc1: s1.0,
                sc2: s2.0,
                z0: s0.1,
                z1: s1.1,
                z2: s2.1,
                rec0: s0.2,
                rec1: s1.2,
                rec2: s2.2,
                pv0: spec_vertex_scale(t.v0, s0.2 as int),
                pv1: spec_vertex_scale(t.v1, s1.2 as int),
                pv2: spec_vertex_scale(t.v2, s2.2 as int),
            },
        )
    }
}

/// Map one vertex to screen space.
fn screen_vertex(v: &Vertex, width: usize, height: usize) -> (r: (Vec2Fx, i64, i64))
    requires
        v.pos.w != 0,
        1 <= width <= MAX_VIEWPORT,
        1 <= height <= MAX_VIEWPORT,
    ensures
        r == spec_screen_vertex(*v, width as int, height as int),
{
    let rec = fx_div(FX_ONE, v.pos.w);
    let ndc_x = fx_mul(v.pos.x, rec);
    let ndc_y = fx_mul(v.pos.y, rec);
    let ndc_z = fx_mul(v.pos.z, rec);
    let sx = map_to_range(ndc_x, -FX_ONE, FX_ONE, 0, (width as i64) * FX_ONE);
    let sy = map_to_range(ndc_y, -FX_ONE, FX_ONE, 0, (height as i64) * FX_ONE);
    (Vec2Fx { x: sx, y: sy }, ndc_z, rec)
}

/// Carry a clip-space triangle into screen space, or reject it when a
/// vertex has `w == 0`.
fn prepare_triangle(t: &Triangle, width: usize, height: usize) -> (r: Option<ScreenTriangle>)
    requires
        1 <= width <= MAX_VIEWPORT,
        1 <= height <= MAX_VIEWPORT,
    ensures
        r == spec_prepare(*t, width as int, height as int),
{
    if t.v0.pos.w == 0 || t.v1.pos.w == 0 || t.v2.pos.w == 0 {
        return None;
    }
    let s0 = screen_vertex(&t.v0, width, height);
    let s1 = screen_vertex(&t.v1, width, height);
    let s2 = screen_vertex(&t.v2, width, height);
    Some(
        ScreenTriangle {
            sc0: s0.0,
            sc1: s1.0,
            sc2: s2.0,
            z0: s0.1,
            z1: s1.1,
            z2: s2.1,
            rec0: s0.2,
            rec1: s1.2,
            rec2: s2.2,
            pv0: t.v0.scale(s0.2),
            pv1: t.v1.scale(s1.2),
            pv2: t.v2.scale(s2.2),
        },
    )
}

/// The center of pixel `(x, y)` in fixed-point screen coordinates.
pub open spec fn spec_pixel_center(x: int, y: int) -> Vec2Fx {
    Vec2Fx { x: (x * 65536 + 32768) as i64, y: (y * 65536 + 32768) as i64 }
}

/// Barycentric blend of three fixed-point scalars.
pub open spec fn spec_blend3(w: Vec3Fx, a: int, b: int, c: int) -> int {
    spec_add(
        spec_add(spec_mul(w.x as int, a), spec_mul(w.y as int, b)),
        spec_mul(w.z as int, c),
    )
}

/// Barycentric blend of three vectors.
pub open spec fn spec_blend_vec3(w: Vec3Fx, a: Vec3Fx, b: Vec3Fx, c: Vec3Fx) -> Vec3Fx {
    spec_vec3_add(
        spec_vec3_add(spec_vec3_scale(a, w.x as int), spec_vec3_scale(b, w.y as int)),
        spec_vec3_scale(c, w.z as int),
    )
}

/// Barycentric blend of three texture coordinates.
pub open spec fn spec_blend_vec2(w: Vec3Fx, a: Vec2Fx, b: Vec2Fx, c: Vec2Fx) -> Vec2Fx {
    spec_vec2_add(
        spec_vec2_add(spec_vec2_scale(a, w.x as int), spec_vec2_scale(b, w.y as int)),
        spec_vec2_scale(c, w.z as int),
    )
}

/// A color channel clamped into one byte.
pub open spec fn spec_clamp_byte(x: int) -> int {
    if x < 0 {
        0
    } else if x > 255 {
        255
    } else {
        x
    }
}

/// One 0..255 channel scaled by a fixed-point factor, clamped to a byte.
pub open spec fn spec_scale_channel(ch: int, f: int) -> int {
    spec_clamp_byte(fdiv(ch * f, 65536))
}

/// Scale a color channel by a fixed-point shading factor.
fn scale_channel(ch: u8, f: i64) -> (r: u8)
    ensures
        r as int == spec_scale_channel(ch as int, f as int),
{
    proof {
        crate::fixed::lemma_mul_fits(ch as int, f as int, 255, 0x8000_0000_0000_0000);
    }
    let v: i128 = ch as i128 * f as i128;
    let q: i128 = floor_div128(v, FX_ONE as i128);
    if q < 0 {
        0
    } else if q > 255 {
        255
    } else {
        q as u8
    }
}

/// True when the texture (if any) has sane dimensions for sampling.
pub open spec fn spec_texture_ok(texture: Option<&Texture>) -> bool {
    texture matches Some(t) ==> 0 < t.width <= 0x1_0000_0000 && 0 < t.height <= 0x1_0000_0000
        && t.width * t.height <= usize::MAX
}

/// Depth of the pixel: barycentric blend of the three vertex depths.
pub open spec fn spec_pixel_depth(st: ScreenTriangle, w: Vec3Fx) -> int {
    spec_blend3(w, st.z0 as int, st.z1 as int, st.z2 as int)
}

/// The blended reciprocal `w`, whose inverse undoes the perspective
/// distortion of every interpolated attribute.
pub open spec fn spec_correction_den(st: ScreenTriangle, w: Vec3Fx) -> int {
    spec_blend3(w, st.rec0 as int, st.rec1 as int, st.rec2 as int)
}

/// The shaded, packed color of a covered pixel: perspective-corrected
/// normal and color, a Lambertian term against the light direction plus
/// the ambient term, then either a texture sample modulated by that
/// color or the color itself.
pub open spec fn spec_pixel_color(
    st: ScreenTriangle,
    texture: Option<&Texture>,
    light: Lighting,
    w: Vec3Fx,
    correction: int,
) -> int {
    let normal = spec_vec3_scale(
        spec_blend_vec3(w, st.pv0.normal, st.pv1.normal, st.pv2.normal),
        correction,
    );
    let n_dot_l = spec_vec3_dot(normal, light.light_dir);
    let col = spec_vec3_add(
        spec_vec3_scale(
            spec_vec3_scale(
                spec_blend_vec3(w, st.pv0.color, st.pv1.color, st.pv2.color),
                correction,
            ),
            n_dot_l,
        ),
        light.ambient,
    );
    match texture {
        Some(t) => {
            let uv = spec_vec2_scale(
                spec_blend_vec2(w, st.pv0.uv, st.pv1.uv, st.pv2.uv),
                correction,
            );
            let tc = spec_rgb_at_uv(
                t.width as int,
                t.height as int,
                t.data@,
                uv.x as int,
                uv.y as int,
            );
            spec_scale_channel((tc / 0x10000) % 0x100, col.x as int) * 0x10000 + spec_scale_channel(
                (tc / 0x100) % 0x100,
                col.y as int,
            ) * 0x100 + spec_scale_channel(tc % 0x100, col.z as int)
        },
        None => {
            spec_scale_channel(255, col.x as int) * 0x10000 + spec_scale_channel(
                255,
                col.y as int,
            ) * 0x100 + spec_scale_channel(255, col.z as int)
        },
    }
}

/// What one pixel of the buffers becomes: unchanged without coverage or
/// when the depth test fails; otherwise the shaded color and the new
/// depth. A zero blended reciprocal cannot be inverted, so such a pixel
/// is skipped as degenerate.
pub open spec fn spec_pixel_result(
    st: ScreenTriangle,
    area: int,
    texture: Option<&Texture>,
    light: Lighting,
    x: int,
    y: int,
    old_c: u32,
    old_z: i64,
) -> (u32, i64) {
    match spec_barycentric(spec_pixel_center(x, y), st.sc0, st.sc1, st.sc2, area) {
        None => (old_c, old_z),
        Some(w) => {
            let depth = spec_pixel_depth(st, w);
            if depth < old_z {
                let den = spec_correction_den(st, w);
                if den == 0 {
                    (old_c, old_z)
                } else {
                    let correction = spec_div(FX_ONE as int, den);
                    (
                        spec_pixel_color(st, texture, light, w, correction) as u32,
                        depth as i64,
                    )
                }
            } else {
                (old_c, old_z)
            }
        },
    }
}

/// Run the coverage, depth and shading chain for one pixel.
fn shade_pixel(
    st: &ScreenTriangle,
    area: i64,
    texture: Option<&Texture>,
    light: &Lighting,
    x: usize,
    y: usize,
    old_c: u32,
    old_z: i64,
) -> (r: (u32, i64))
    requires
        x < MAX_VIEWPORT,
        y < MAX_VIEWPORT,
        vec2_in_range(st.sc0),
        vec2_in_range(st.sc1),
        vec2_in_range(st.sc2),
        spec_texture_ok(texture),
    ensures
        r == spec_pixel_result(*st, area as int, texture, *light, x as int, y as int, old_c, old_z),
{
    let p = Vec2Fx { x: (x as i64) * FX_ONE + FX_HALF, y: (y as i64) * FX_ONE + FX_HALF };
    match barycentric_coords(p, st.sc0, st.sc1, st.sc2, area) {
        None => (old_c, old_z),
        Some(w) => {
            let depth = fx_add(
                fx_add(fx_mul(w.x, st.z0), fx_mul(w.y, st.z1)),
                fx_mul(w.z, st.z2),
            );
            if depth < old_z {
                let den = fx_add(
                    fx_add(fx_mul(w.x, st.rec0), fx_mul(w.y, st.rec1)),
                    fx_mul(w.z, st.rec2),
                );
                if den == 0 {
                    (old_c, old_z)
                } else {
                    let correction = fx_div(FX_ONE, den);
                    let normal = st.pv0.normal.scale(w.x).add(st.pv1.normal.scale(w.y)).add(
                        st.pv2.normal.scale(w.z),
                    ).scale(correction);
                    let n_dot_l = normal.dot(light.light_dir);
                    let col = st.pv0.color.scale(w.x).add(st.pv1.color.scale(w.y)).add(
                        st.pv2.color.scale(w.z),
                    ).scale(correction).scale(n_dot_l).add(light.ambient);
                    let out = match texture {
                        Some(t) => {
                            let uv = st.pv0.uv.scale(w.x).add(st.pv1.uv.scale(w.y)).add(
                                st.pv2.uv.scale(w.z),
                            ).scale(correction);
                            let tc = t.rgb_at_uv(uv.x, uv.y);
                            from_u8_rgb(
                                scale_channel(red_of(tc), col.x),
                                scale_channel(green_of(tc), col.y),
                                scale_channel(blue_of(tc), col.z),
                            )
                        },
                        None => {
                            from_u8_rgb(
                                scale_channel(255, col.x),
                                scale_channel(255, col.y),
                                scale_channel(255, col.z),
                            )
                        },
                    };
                    (out, depth)
                }
            } else {
                (old_c, old_z)
            }
        },
    }
}

/// Convert a nonnegative fixed-point screen coordinate to its pixel
/// column or row.
fn fx_to_px(v: i64) -> (r: usize)
    requires
        0 <= v <= 0x2000_0000,
    ensures
        r as int == v as int / 65536,
        r <= MAX_VIEWPORT,
{
    proof {
        lemma_div_is_ordered(v as int, 0x2000_0000, 65536);
        lemma_div_pos_is_pos(v as int, 65536);
    }
    ((v as u64) / 65536) as usize
}

/// Whether flat index `i` falls inside the pixel box.
pub open spec fn spec_in_box(i: int, width: int, lp: int, rp: int, tp: int, bp: int) -> bool {
    lp <= i % width <= rp && tp <= i / width <= bp
}

/// Both buffers after the scan loop: every pixel of the box is run
/// through the coverage/depth/shade chain against its old contents;
/// everything else is untouched.
pub open spec fn spec_raster_pixels(
    st: ScreenTriangle,
    area: int,
    texture: Option<&Texture>,
    light: Lighting,
    width: int,
    lp: int,
    rp: int,
    tp: int,
    bp: int,
    buf: Seq<u32>,
    zbuf: Seq<i64>,
) -> (Seq<u32>, Seq<i64>) {
    (
        Seq::new(
            buf.len(),
            |i: int|
                if spec_in_box(i, width, lp, rp, tp, bp) {
                    spec_pixel_result(
                        st,
                        area,
                        texture,
                        light,
                        i % width,
                        i / width,
                        buf[i],
                        zbuf[i],
                    ).0
                } else {
                    buf[i]
                },
        ),
        Seq::new(
            zbuf.len(),
            |i: int|
                if spec_in_box(i, width, lp, rp, tp, bp) {
                    spec_pixel_result(
                        st,
                        area,
                        texture,
                        light,
                        i % width,
                        i / width,
                        buf[i],
                        zbuf[i],
                    ).1
                } else {
                    zbuf[i]
                },
        ),
    )
}

/// What rasterizing one clipped triangle does to the two buffers. The
/// triangle is skipped whole when a vertex cannot be perspective-divided
/// (`w == 0`), when its screen coordinates overflow the addressable
/// fixed-point screen space (beyond `COORD_LIMIT`, i.e. +/-8192 px of
/// overhang — near-plane clipping bounds `z` but not `w`, so a tiny `w`
/// can project a vertex far outside that range; such a triangle is
/// dropped rather than scan-converted with overflowing edge algebra),
/// or when its bounding box misses the viewport.
pub open spec fn spec_raster_clipped(
    t: Triangle,
    texture: Option<&Texture>,
    light: Lighting,
    width: int,
    height: int,
    buf: Seq<u32>,
    zbuf: Seq<i64>,
) -> (Seq<u32>, Seq<i64>) {
    match spec_prepare(t, width, height) {
        None => (buf, zbuf),
        Some(st) => {
            if !(vec2_in_range(st.sc0) && vec2_in_range(st.sc1) && vec2_in_range(st.sc2)) {
                (buf, zbuf)
            } else {
                let area = spec_edge(st.sc0, st.sc1, st.sc2);
                match spec_screen_bbox(st.sc0, st.sc1, st.sc2, width, height) {
                    None => (buf, zbuf),
                    Some(bb) => spec_raster_pixels(
                        st,
                        area,
                        texture,
                        light,
                        width,
                        bb.left as int / 65536,
                        bb.right as int / 65536,
                        bb.top as int / 65536,
                        bb.bottom as int / 65536,
                        buf,
                        zbuf,
                    ),
                }
            }
        },
    }
}

/// Scan-convert one clipped, clip-space triangle into the color and
/// depth buffers: perspective-divide, map to screen, bound, and run
/// every pixel of the bounding box through the coverage, depth-test and
/// shading chain.
#[verifier::loop_isolation(false)]
#[verifier::rlimit(60)]
pub fn raster_clipped_triangle(
    triangle: &Triangle,
    texture: Option<&Texture>,
    lighting: &Lighting,
    buffer: &mut Vec<u32>,
    z_buffer: &mut Vec<i64>,
    width: usize,
    height: usize,
)
    requires
        1 <= width <= MAX_VIEWPORT,
        1 <= height <= MAX_VIEWPORT,
        old(buffer)@.len() == width * height,
        old(z_buffer)@.len() == width * height,
        spec_texture_ok(texture),
    ensures
        final(buffer)@ == spec_raster_clipped(
            *triangle,
            texture,
            *lighting,
            width as int,
            height as int,
            old(buffer)@,
            old(z_buffer)@,
        ).0,
        final(z_buffer)@ == spec_raster_clipped(
            *triangle,
            texture,
            *lighting,
            width as int,
            height as int,
            old(buffer)@,
            old(z_buffer)@,
        ).1,
{
    let st = match prepare_triangle(triangle, width, height) {
        None => {
            return ;
        },
        Some(st) => st,
    };
    if !(check_vec2_in_range(st.sc0) && check_vec2_in_range(st.sc1) && check_vec2_in_range(
        st.sc2,
    )) {
        return ;
    }
    let area = edge_function(st.sc0, st.sc1, st.sc2);
    let bb = match triangle_screen_bounding_box(st.sc0, st.sc1, st.sc2, width, height) {
        None => {
            return ;
        },
        Some(bb) => bb,
    };
    proof {
        lemma_fundamental_div_mod_converse_div(
            (width as int) * 65536 - 1,
            65536,
            (width as int) - 1,
            65535,
        );
        lemma_fundamental_div_mod_converse_div(
            (height as int) * 65536 - 1,
            65536,
            (height as int) - 1,
            65535,
        );
        lemma_div_is_ordered(bb.left as int, bb.right as int, 65536);
        lemma_div_is_ordered(bb.top as int, bb.bottom as int, 65536);
        lemma_div_is_ordered(bb.right as int, (width as int) * 65536 - 1, 65536);
        lemma_div_is_ordered(bb.bottom as int, (height as int) * 65536 - 1, 65536);
        assert(buffer@.len() <= usize::MAX) by {
            assert(buffer.len() == buffer@.len());
        };
    }
    let lp = fx_to_px(bb.left);
    let rp = fx_to_px(bb.right);
    let tp = fx_to_px(bb.top);
    let bp = fx_to_px(bb.bottom);
    let ghost buf0 = buffer@;
    let ghost zbuf0 = z_buffer@;
    let ghost result = spec_raster_pixels(
        st,
        area as int,
        texture,
        *lighting,
        width as int,
        lp as int,
        rp as int,
        tp as int,
        bp as int,
        buf0,
        zbuf0,
    );
    let mut y = tp;
    while y <= bp
        invariant
            tp <= y <= bp + 1,
            buffer@.len() == buf0.len(),
            z_buffer@.len() == zbuf0.len(),
            forall|i: int|
                0 <= i < buf0.len() ==> #[trigger] buffer@[i] == (if spec_in_box(
                    i,
                    width as int,
                    lp as int,
                    rp as int,
                    tp as int,
                    bp as int,
                ) && i / (width as int) < y {
                    result.0[i]
                } else {
                    buf0[i]
                }),
            forall|i: int|
                0 <= i < zbuf0.len() ==> #[trigger] z_buffer@[i] == (if spec_in_box(
                    i,
                    width as int,
                    lp as int,
                    rp as int,
                    tp as int,
                    bp as int,
                ) && i / (width as int) < y {
                    result.1[i]
                } else {
                    zbuf0[i]
                }),
        decreases bp + 1 - y,
    {
        let mut x = lp;
        while x <= rp
            invariant
                lp <= x <= rp + 1,
                tp <= y <= bp,
                buffer@.len() == buf0.len(),
                z_buffer@.len() == zbuf0.len(),
                forall|i: int|
                    0 <= i < buf0.len() ==> #[trigger] buffer@[i] == (if spec_in_box(
                        i,
                        width as int,
                        lp as int,
                        rp as int,
                        tp as int,
                        bp as int,
                    ) && (i / (width as int) < y || (i / (width as int) == y && i % (width as int) < x)) {
                        result.0[i]
                    } else {
                        buf0[i]
                    }),
                forall|i: int|
                    0 <= i < zbuf0.len() ==> #[trigger] z_buffer@[i] == (if spec_in_box(
                        i,
                        width as int,
                        lp as int,
                        rp as int,
                        tp as int,
                        bp as int,
                    ) && (i / (width as int) < y || (i / (width as int) == y && i % (width as int) < x)) {
                        result.1[i]
                    } else {
                        zbuf0[i]
                    }),
            decreases rp + 1 - x,
        {
            proof {
                assert(x + y * (width as int) < width * height) by (nonlinear_arith)
                    requires
                        0 <= x < width as int,
                        0 <= y < height as int,
                        0 < width as int,
                ;
            }
            let idx = coords_to_index(x, y, width);
            proof {
                lemma_fundamental_div_mod_converse_div(idx as int, width as int, y as int, x as int);
                lemma_fundamental_div_mod_converse_mod(idx as int, width as int, y as int, x as int);
            }
            let pr = shade_pixel(&st, area, texture, lighting, x, y, buffer[idx], z_buffer[idx]);
            buffer[idx] = pr.0;
            z_buffer[idx] = pr.1;
            proof {
                assert forall|i: int| 0 <= i < buf0.len() && i != idx as int implies !(#[trigger] (
                i / (width as int)) == y as int && i % (width as int) == x as int) by {
                    lemma_fundamental_div_mod(i, width as int);
                    if i / (width as int) == y as int && i % (width as int) == x as int {
                        assert(i == (width as int) * (y as int) + x as int);
                        assert((width as int) * (y as int) == (y as int) * (width as int))
                            by (nonlinear_arith);
                        assert(false);
                    }
                }
            }
            x = x + 1;
        }
        y = y + 1;
    }
    proof {
        assert(buffer@ =~= result.0);
        assert(z_buffer@ =~= result.1);
    }
}

/// The screen-plane projection of a vertex position.
pub open spec fn spec_pos_xy(v: Vertex) -> Vec2Fx {
    Vec2Fx { x: v.pos.x, y: v.pos.y }
}

/// What one pixel becomes under the 2D overlay variant: positions are
/// already screen coordinates, depth is the raw `z`, the color is a
/// plain barycentric blend, and a sampled texel is dropped when its
/// alpha byte is zero (the depth still updates, as for any pixel that
/// passes the depth test). The output keeps the one canonical
/// `0xAARRGGBB` layout: this path carries the sampled alpha byte
/// through, where paths without an alpha source write zero alpha.
pub open spec fn spec_pixel_result_2d(
    t: Triangle,
    area: int,
    texture: Option<&Texture>,
    x: int,
    y: int,
    old_c: u32,
    old_z: i64,
) -> (u32, i64) {
    match spec_barycentric(
        spec_pixel_center(x, y),
        spec_pos_xy(t.v0),
        spec_pos_xy(t.v1),
        spec_pos_xy(t.v2),
        area,
    ) {
        None => (old_c, old_z),
        Some(w) => {
            let depth = spec_blend3(w, t.v0.pos.z as int, t.v1.pos.z as int, t.v2.pos.z as int);
            if depth < old_z {
                let col = spec_blend_vec3(w, t.v0.color, t.v1.color, t.v2.color);
                match texture {
                    Some(tex) => {
                        let uv = spec_blend_vec2(w, t.v0.uv, t.v1.uv, t.v2.uv);
                        let tc = spec_rgb_at_uv(
                            tex.width as int,
                            tex.height as int,
                            tex.data@,
                            uv.x as int,
                            uv.y as int,
                        );
                        let alpha = (tc / 0x1000000) % 0x100;
                        if alpha != 0 {
                            (
                                (alpha * 0x1000000 + spec_scale_channel(
                                    (tc / 0x10000) % 0x100,
                                    col.x as int,
                                ) * 0x10000 + spec_scale_channel((tc / 0x100) % 0x100, col.y as int)
                                    * 0x100 + spec_scale_channel(tc % 0x100, col.z as int)) as u32,
                                depth as i64,
                            )
                        } else {
                            (old_c, depth as i64)
                        }
                    },
                    None => {
                        (
                            (spec_scale_channel(255, col.x as int) * 0x10000 + spec_scale_channel(
                                255,
                                col.y as int,
                            ) * 0x100 + spec_scale_channel(255, col.z as int)) as u32,
                            depth as i64,
                        )
                    },
                }
            } else {
                (old_c, old_z)
            }
        },
    }
}

/// One pixel of the 2D overlay variant.
fn shade_pixel_2d(
    t: &Triangle,
    area: i64,
    texture: Option<&Texture>,
    x: usize,
    y: usize,
    old_c: u32,
    old_z: i64,
) -> (r: (u32, i64))
    requires
        x < MAX_VIEWPORT,
        y < MAX_VIEWPORT,
        vec2_in_range(spec_pos_xy(t.v0)),
        vec2_in_range(spec_pos_xy(t.v1)),
        vec2_in_range(spec_pos_xy(t.v2)),
        spec_texture_ok(texture),
    ensures
        r == spec_pixel_result_2d(*t, area as int, texture, x as int, y as int, old_c, old_z),
{
    let p = Vec2Fx { x: (x as i64) * FX_ONE + FX_HALF, y: (y as i64) * FX_ONE + FX_HALF };
    match barycentric_coords(p, t.v0.pos.xy(), t.v1.pos.xy(), t.v2.pos.xy(), area) {
        None => (old_c, old_z),
        Some(w) => {
            let depth = fx_add(
                fx_add(fx_mul(w.x, t.v0.pos.z), fx_mul(w.y, t.v1.pos.z)),
                fx_mul(w.z, t.v2.pos.z),
            );
            if depth < old_z {
                let col = t.v0.color.scale(w.x).add(t.v1.color.scale(w.y)).add(
                    t.v2.color.scale(w.z),
                );
                match texture {
                    Some(tex) => {
                        let uv = t.v0.uv.scale(w.x).add(t.v1.uv.scale(w.y)).add(
                            t.v2.uv.scale(w.z),
                        );
                        let tc = tex.rgb_at_uv(uv.x, uv.y);
                        let alpha = alpha_of(tc);
                        if alpha != 0 {
                            (
                                to_argb8(
                                    alpha,
                                    scale_channel(red_of(tc), col.x),
                                    scale_channel(green_of(tc), col.y),
                                    scale_channel(blue_of(tc), col.z),
                                ),
                                depth,
                            )
                        } else {
                            (old_c, depth)
                        }
                    },
                    None => {
                        (
                            from_u8_rgb(
                                scale_channel(255, col.x),
                                scale_channel(255, col.y),
                                scale_channel(255, col.z),
                            ),
                            depth,
                        )
                    },
                }
            } else {
                (old_c, old_z)
            }
        },
    }
}

/// Both buffers after the 2D scan loop.
pub open spec fn spec_raster_pixels_2d(
    t: Triangle,
    area: int,
    texture: Option<&Texture>,
    width: int,
    lp: int,
    rp: int,
    tp: int,
    bp: int,
    buf: Seq<u32>,
    zbuf: Seq<i64>,
) -> (Seq<u32>, Seq<i64>) {
    (
        Seq::new(
            buf.len(),
            |i: int|
                if spec_in_box(i, width, lp, rp, tp, bp) {
                    spec_pixel_result_2d(t, area, texture, i % width, i / width, buf[i], zbuf[i]).0
                } else {
                    buf[i]
                },
        ),
        Seq::new(
            zbuf.len(),
            |i: int|
                if spec_in_box(i, width, lp, rp, tp, bp) {
                    spec_pixel_result_2d(t, area, texture, i % width, i / width, buf[i], zbuf[i]).1
                } else {
                    zbuf[i]
                },
        ),
    )
}

/// What rasterizing one screen-space triangle does to the buffers under
/// the 2D overlay variant.
pub open spec fn spec_raster_triangle_2d(
    t: Triangle,
    texture: Option<&Texture>,
    width: int,
    height: int,
    buf: Seq<u32>,
    zbuf: Seq<i64>,
) -> (Seq<u32>, Seq<i64>) {
    let p0 = spec_pos_xy(t.v0);
    let p1 = spec_pos_xy(t.v1);
    let p2 = spec_pos_xy(t.v2);
    if !(vec2_in_range(p0) && vec2_in_range(p1) && vec2_in_range(p2)) {
        (buf, zbuf)
    } else {
        let area = spec_edge(p1, p2, p0);
        match spec_screen_bbox(p0, p1, p2, width, height) {
            None => (buf, zbuf),
            Some(bb) => spec_raster_pixels_2d(
                t,
                area,
                texture,
                width,
                bb.left as int / 65536,
                bb.right as int / 65536,
                bb.top as int / 65536,
                bb.bottom as int / 65536,
                buf,
                zbuf,
            ),
        }
    }
}

/// Scan-convert one triangle whose positions are already screen
/// coordinates (text overlays and other 2D work): no perspective, raw
/// `z` as depth, and alpha-tested texture sampling.
#[verifier::loop_isolation(false)]
#[verifier::rlimit(60)]
pub fn raster_triangle_2d(
    triangle: &Triangle,
    texture: Option<&Texture>,
    buffer: &mut Vec<u32>,
    z_buffer: &mut Vec<i64>,
    width: usize,
    height: usize,
)
    requires
        1 <= width <= MAX_VIEWPORT,
        1 <= height <= MAX_VIEWPORT,
        old(buffer)@.len() == width * height,
        old(z_buffer)@.len() == width * height,
        spec_texture_ok(texture),
    ensures
        final(buffer)@ == spec_raster_triangle_2d(
            *triangle,
            texture,
            width as int,
            height as int,
            old(buffer)@,
            old(z_buffer)@,
        ).0,
        final(z_buffer)@ == spec_raster_triangle_2d(
            *triangle,
            texture,
            width as int,
            height as int,
            old(buffer)@,
            old(z_buffer)@,
        ).1,
        final(buffer)@.len() == old(buffer)@.len(),
        final(z_buffer)@.len() == old(z_buffer)@.len(),
{
    let p0 = triangle.v0.pos.xy();
    let p1 = triangle.v1.pos.xy();
    let p2 = triangle.v2.pos.xy();
    if !(check_vec2_in_range(p0) && check_vec2_in_range(p1) && check_vec2_in_range(p2)) {
        return ;
    }
    let area = edge_function(p1, p2, p0);
    let bb = match triangle_screen_bounding_box(p0, p1, p2, width, height) {
        None => {
            return ;
        },
        Some(bb) => bb,
    };
    proof {
        lemma_fundamental_div_mod_converse_div(
            (width as int) * 65536 - 1,
            65536,
            (width as int) - 1,
            65535,
        );
        lemma_fundamental_div_mod_converse_div(
            (height as int) * 65536 - 1,
            65536,
            (height as int) - 1,
            65535,
        );
        lemma_div_is_ordered(bb.left as int, bb.right as int, 65536);
        lemma_div_is_ordered(bb.top as int, bb.bottom as int, 65536);
        lemma_div_is_ordered(bb.right as int, (width as int) * 65536 - 1, 65536);
        lemma_div_is_ordered(bb.bottom as int, (height as int) * 65536 - 1, 65536);
        assert(buffer@.len() <= usize::MAX) by {
            assert(buffer.len() == buffer@.len());
        };
    }
    let lp = fx_to_px(bb.left);
    let rp = fx_to_px(bb.right);
    let tp = fx_to_px(bb.top);
    let bp = fx_to_px(bb.bottom);
    let ghost buf0 = buffer@;
    let ghost zbuf0 = z_buffer@;
    let ghost result = spec_raster_pixels_2d(
        *triangle,
        area as int,
        texture,
        width as int,
        lp as int,
        rp as int,
        tp as int,
        bp as int,
        buf0,
        zbuf0,
    );
    let mut y = tp;
    while y <= bp
        invariant
            tp <= y <= bp + 1,
            buffer@.len() == buf0.len(),
            z_buffer@.len() == zbuf0.len(),
            forall|i: int|
                0 <= i < buf0.len() ==> #[trigger] buffer@[i] == (if spec_in_box(
                    i,
                    width as int,
                    lp as int,
                    rp as int,
                    tp as int,
                    bp as int,
                ) && i / (width as int) < y {
                    result.0[i]
                } else {
                    buf0[i]
                }),
            forall|i: int|
                0 <= i < zbuf0.len() ==> #[trigger] z_buffer@[i] == (if spec_in_box(
                    i,
                    width as int,
                    lp as int,
                    rp as int,
                    tp as int,
                    bp as int,
                ) && i / (width as int) < y {
                    result.1[i]
                } else {
                    zbuf0[i]
                }),
        decreases bp + 1 - y,
    {
        let mut x = lp;
        while x <= rp
            invariant
                lp <= x <= rp + 1,
                tp <= y <= bp,
                buffer@.len() == buf0.len(),
                z_buffer@.len() == zbuf0.len(),
                forall|i: int|
                    0 <= i < buf0.len() ==> #[trigger] buffer@[i] == (if spec_in_box(
                        i,
                        width as int,
                        lp as int,
                        rp as int,
                        tp as int,
                        bp as int,
                    ) && (i / (width as int) < y || (i / (width as int) == y && i % (width as int)
                        < x)) {
                        result.0[i]
                    } else {
                        buf0[i]
                    }),
                forall|i: int|
                    0 <= i < zbuf0.len() ==> #[trigger] z_buffer@[i] == (if spec_in_box(
                        i,
                        width as int,
                        lp as int,
                        rp as int,
                        tp as int,
                        bp as int,
                    ) && (i / (width as int) < y || (i / (width as int) == y && i % (width as int)
                        < x)) {
                        result.1[i]
                    } else {
                        zbuf0[i]
                    }),
            decreases rp + 1 - x,
        {
            proof {
                assert(x + y * (width as int) < width * height) by (nonlinear_arith)
                    requires
                        0 <= x < width as int,
                        0 <= y < height as int,
                        0 < width as int,
                ;
            }
            let idx = coords_to_index(x, y, width);
            proof {
                lemma_fundamental_div_mod_converse_div(idx as int, width as int, y as int, x as int);
                lemma_fundamental_div_mod_converse_mod(idx as int, width as int, y as int, x as int);
            }
            let pr = shade_pixel_2d(triangle, area, texture, x, y, buffer[idx], z_buffer[idx]);
            buffer[idx] = pr.0;
            z_buffer[idx] = pr.1;
            proof {
                assert forall|i: int| 0 <= i < buf0.len() && i != idx as int implies !(#[trigger] (
                i / (width as int)) == y as int && i % (width as int) == x as int) by {
                    lemma_fundamental_div_mod(i, width as int);
                    if i / (width as int) == y as int && i % (width as int) == x as int {
                        assert(i == (width as int) * (y as int) + x as int);
                        assert((width as int) * (y as int) == (y as int) * (width as int))
                            by (nonlinear_arith);
                        assert(false);
                    }
                }
            }
            x = x + 1;
        }
        y = y + 1;
    }
    proof {
        assert(buffer@ =~= result.0);
        assert(z_buffer@ =~= result.1);
    }
}

/// The buffers after the first `k` triangles of a mesh run through the
/// 2D overlay variant.
pub open spec fn spec_raster_mesh_2d(
    tris: Seq<crate::geometry::UVec3>,
    verts: Seq<Vertex>,
    k: int,
    texture: Option<&Texture>,
    width: int,
    height: int,
    buf: Seq<u32>,
    zbuf: Seq<i64>,
) -> (Seq<u32>, Seq<i64>)
    decreases k,
{
    if k <= 0 {
        (buf, zbuf)
    } else {
        let prev = spec_raster_mesh_2d(tris, verts, k - 1, texture, width, height, buf, zbuf);
        spec_raster_triangle_2d(
            Triangle {
                v0: verts[tris[k - 1].x as int],
                v1: verts[tris[k - 1].y as int],
                v2: verts[tris[k - 1].z as int],
            },
            texture,
            width,
            height,
            prev.0,
            prev.1,
        )
    }
}

/// The 2D mesh driver: every triangle of the mesh runs through the 2D
/// overlay variant, in order.
#[verifier::loop_isolation(false)]
#[verifier::rlimit(60)]
pub fn raster_mesh_2d(
    mesh: &Mesh,
    texture: Option<&Texture>,
    buffer: &mut Vec<u32>,
    z_buffer: &mut Vec<i64>,
    width: usize,
    height: usize,
)
    requires
        mesh.wf(),
        1 <= width <= MAX_VIEWPORT,
        1 <= height <= MAX_VIEWPORT,
        old(buffer)@.len() == width * height,
        old(z_buffer)@.len() == width * height,
        spec_texture_ok(texture),
    ensures
        final(buffer)@ == spec_raster_mesh_2d(
            mesh.triangle_indices@,
            mesh.vertices@,
            mesh.triangle_indices@.len() as int,
            texture,
            width as int,
            height as int,
            old(buffer)@,
            old(z_buffer)@,
        ).0,
        final(z_buffer)@ == spec_raster_mesh_2d(
            mesh.triangle_indices@,
            mesh.vertices@,
            mesh.triangle_indices@.len() as int,
            texture,
            width as int,
            height as int,
            old(buffer)@,
            old(z_buffer)@,
        ).1,
{
    let ghost buf0 = buffer@;
    let ghost zbuf0 = z_buffer@;
    let mut k: usize = 0;
    let n = mesh.triangle_indices.len();
    while k < n
        invariant
            0 <= k <= n,
            buffer@ == spec_raster_mesh_2d(
                mesh.triangle_indices@,
                mesh.vertices@,
                k as int,
                texture,
                width as int,
                height as int,
                buf0,
                zbuf0,
            ).0,
            z_buffer@ == spec_raster_mesh_2d(
                mesh.triangle_indices@,
                mesh.vertices@,
                k as int,
                texture,
                width as int,
                height as int,
                buf0,
                zbuf0,
            ).1,
            buffer@.len() == buf0.len(),
            z_buffer@.len() == zbuf0.len(),
        decreases n - k,
    {
        let idx = mesh.triangle_indices[k];
        let vertices = mesh.get_vertices_from_triangle_indices(idx);
        let triangle = Triangle { v0: vertices.0, v1: vertices.1, v2: vertices.2 };
        raster_triangle_2d(&triangle, texture, buffer, z_buffer, width, height);
        k = k + 1;
    }
}

/// Depth-test idempotence: scan-converting the same triangle a second
/// time changes nothing, because every pixel the first pass shaded now
/// carries exactly that pixel's depth and the strict depth test fails.
#[verifier::rlimit(60)]
pub proof fn lemma_raster_clipped_idempotent(
    t: Triangle,
    texture: Option<&Texture>,
    light: Lighting,
    width: int,
    height: int,
    buf: Seq<u32>,
    zbuf: Seq<i64>,
)
    requires
        buf.len() == zbuf.len(),
    ensures
        ({
            let r1 = spec_raster_clipped(t, texture, light, width, height, buf, zbuf);
            let r2 = spec_raster_clipped(t, texture, light, width, height, r1.0, r1.1);
            r2.0 == r1.0 && r2.1 == r1.1
        }),
{
    let r1 = spec_raster_clipped(t, texture, light, width, height, buf, zbuf);
    let r2 = spec_raster_clipped(t, texture, light, width, height, r1.0, r1.1);
    match spec_prepare(t, width, height) {
        None => {},
        Some(st) => {
            if vec2_in_range(st.sc0) && vec2_in_range(st.sc1) && vec2_in_range(st.sc2) {
                let area = spec_edge(st.sc0, st.sc1, st.sc2);
                match spec_screen_bbox(st.sc0, st.sc1, st.sc2, width, height) {
                    None => {},
                    Some(bb) => {
                        let lp = bb.left as int / 65536;
                        let rp = bb.right as int / 65536;
                        let tp = bb.top as int / 65536;
                        let bp = bb.bottom as int / 65536;
                        assert forall|i: int| 0 <= i < buf.len() implies #[trigger] r2.0[i]
                            == r1.0[i] && r2.1[i] == r1.1[i] by {
                            if spec_in_box(i, width, lp, rp, tp, bp) {
                                let pr1 = spec_pixel_result(
                                    st,
                                    area,
                                    texture,
                                    light,
                                    i % width,
                                    i / width,
                                    buf[i],
                                    zbuf[i],
                                );
                                let pr2 = spec_pixel_result(
                                    st,
                                    area,
                                    texture,
                                    light,
                                    i % width,
                                    i / width,
                                    pr1.0,
                                    pr1.1,
                                );
                                assert(pr2 == pr1);
                            }
                        }
                        assert(r2.0 =~= r1.0);
                        assert(r2.1 =~= r1.1);
                    },
                }
            }
        },
    }
}

/// The clip-space triangle with each vertex normal run through the
/// normal matrix (read as a direction: `w = 0`).
pub open spec fn spec_with_normals(t: Triangle, m: Mat4Fx) -> Triangle {
    Triangle {
        v0: Vertex {
            normal: spec_transformed_normal(t.v0.normal, m),
            ..t.v0
        },
        v1: Vertex {
            normal: spec_transformed_normal(t.v1.normal, m),
            ..t.v1
        },
        v2: Vertex {
            normal: spec_transformed_normal(t.v2.normal, m),
            ..t.v2
        },
    }
}

/// A direction vector run through a matrix: extended with `w = 0`,
/// multiplied, and truncated back to three components.
pub open spec fn spec_transformed_normal(n: Vec3Fx, m: Mat4Fx) -> Vec3Fx {
    let r = spec_mat4_mul_vec4(m, Vec4Fx { x: n.x, y: n.y, z: n.z, w: 0 });
    Vec3Fx { x: r.x, y: r.y, z: r.z }
}

/// What rasterizing one model-space triangle does to the buffers:
/// transform to clip space, fix up the normals, clip against the view
/// volume, and scan-convert whatever survives.
pub open spec fn spec_raster_triangle(
    v0: Vertex,
    v1: Vertex,
    v2: Vertex,
    mvp: Mat4Fx,
    normal_matrix: Mat4Fx,
    texture: Option<&Texture>,
    light: Lighting,
    width: int,
    height: int,
    buf: Seq<u32>,
    zbuf: Seq<i64>,
) -> (Seq<u32>, Seq<i64>) {
    let t = spec_with_normals(spec_transform(Triangle { v0, v1, v2 }, mvp), normal_matrix);
    match spec_clip_cull(t) {
        ClipResult::Culled => (buf, zbuf),
        ClipResult::One(tt) => spec_raster_clipped(tt, texture, light, width, height, buf, zbuf),
        ClipResult::Two(ta, tb) => {
            let mid = spec_raster_clipped(ta, texture, light, width, height, buf, zbuf);
            spec_raster_clipped(tb, texture, light, width, height, mid.0, mid.1)
        },
    }
}

/// Transform one triangle by the model-view-projection matrix, carry its
/// normals through the caller-supplied normal matrix (the inverse
/// transpose of the model matrix, which only the caller can compute),
/// clip, and rasterize the surviving triangles.
#[verifier::rlimit(60)]
pub fn raster_triangle(
    vertices: &(Vertex, Vertex, Vertex),
    mvp: &Mat4Fx,
    normal_matrix: &Mat4Fx,
    texture: Option<&Texture>,
    lighting: &Lighting,
    buffer: &mut Vec<u32>,
    z_buffer: &mut Vec<i64>,
    width: usize,
    height: usize,
)
    requires
        1 <= width <= MAX_VIEWPORT,
        1 <= height <= MAX_VIEWPORT,
        old(buffer)@.len() == width * height,
        old(z_buffer)@.len() == width * height,
        spec_texture_ok(texture),
    ensures
        final(buffer)@ == spec_raster_triangle(
            vertices.0,
            vertices.1,
            vertices.2,
            *mvp,
            *normal_matrix,
            texture,
            *lighting,
            width as int,
            height as int,
            old(buffer)@,
            old(z_buffer)@,
        ).0,
        final(z_buffer)@ == spec_raster_triangle(
            vertices.0,
            vertices.1,
            vertices.2,
            *mvp,
            *normal_matrix,
            texture,
            *lighting,
            width as int,
            height as int,
            old(buffer)@,
            old(z_buffer)@,
        ).1,
        final(buffer)@.len() == old(buffer)@.len(),
        final(z_buffer)@.len() == old(z_buffer)@.len(),
{
    let triangle = Triangle { v0: vertices.0, v1: vertices.1, v2: vertices.2 };
    let mut clip_tri = triangle.transform(mvp);
    clip_tri.v0.normal = transformed_normal(&clip_tri.v0.normal, normal_matrix);
    clip_tri.v1.normal = transformed_normal(&clip_tri.v1.normal, normal_matrix);
    clip_tri.v2.normal = transformed_normal(&clip_tri.v2.normal, normal_matrix);
    match clip_cull_triangle(&clip_tri) {
        ClipResult::Culled => {},
        ClipResult::One(tri) => {
            raster_clipped_triangle(&tri, texture, lighting, buffer, z_buffer, width, height);
        },
        ClipResult::Two(ta, tb) => {
            raster_clipped_triangle(&ta, texture, lighting, buffer, z_buffer, width, height);
            raster_clipped_triangle(&tb, texture, lighting, buffer, z_buffer, width, height);
        },
    }
}

/// Carry one normal through the normal matrix.
fn transformed_normal(n: &Vec3Fx, m: &Mat4Fx) -> (r: Vec3Fx)
    ensures
        r == spec_transformed_normal(*n, *m),
{
    m.mul_vec4(Vec4Fx { x: n.x, y: n.y, z: n.z, w: 0 }).xyz()
}

/// The buffers after the first `k` triangles of a mesh are rasterized
/// in order.
pub open spec fn spec_raster_mesh(
    tris: Seq<crate::geometry::UVec3>,
    verts: Seq<Vertex>,
    k: int,
    mvp: Mat4Fx,
    normal_matrix: Mat4Fx,
    texture: Option<&Texture>,
    light: Lighting,
    width: int,
    height: int,
    buf: Seq<u32>,
    zbuf: Seq<i64>,
) -> (Seq<u32>, Seq<i64>)
    decreases k,
{
    if k <= 0 {
        (buf, zbuf)
    } else {
        let prev = spec_raster_mesh(
            tris,
            verts,
            k - 1,
            mvp,
            normal_matrix,
            texture,
            light,
            width,
            height,
            buf,
            zbuf,
        );
        spec_raster_triangle(
            verts[tris[k - 1].x as int],
            verts[tris[k - 1].y as int],
            verts[tris[k - 1].z as int],
            mvp,
            normal_matrix,
            texture,
            light,
            width,
            height,
            prev.0,
            prev.1,
        )
    }
}

/// The mesh-level driver: every triangle of the mesh runs through
/// transform, clip/cull and rasterization, in order.
#[verifier::loop_isolation(false)]
#[verifier::rlimit(60)]
pub fn raster_mesh(
    mesh: &Mesh,
    mvp: &Mat4Fx,
    normal_matrix: &Mat4Fx,
    texture: Option<&Texture>,
    lighting: &Lighting,
    buffer: &mut Vec<u32>,
    z_buffer: &mut Vec<i64>,
    width: usize,
    height: usize,
)
    requires
        mesh.wf(),
        1 <= width <= MAX_VIEWPORT,
        1 <= height <= MAX_VIEWPORT,
        old(buffer)@.len() == width * height,
        old(z_buffer)@.len() == width * height,
        spec_texture_ok(texture),
    ensures
        final(buffer)@ == spec_raster_mesh(
            mesh.triangle_indices@,
            mesh.vertices@,
            mesh.triangle_indices@.len() as int,
            *mvp,
            *normal_matrix,
            texture,
            *lighting,
            width as int,
            height as int,
            old(buffer)@,
            old(z_buffer)@,
        ).0,
        final(z_buffer)@ == spec_raster_mesh(
            mesh.triangle_indices@,
            mesh.vertices@,
            mesh.triangle_indices@.len() as int,
            *mvp,
            *normal_matrix,
            texture,
            *lighting,
            width as int,
            height as int,
            old(buffer)@,
            old(z_buffer)@,
        ).1,
{
    let ghost buf0 = buffer@;
    let ghost zbuf0 = z_buffer@;
    let mut k: usize = 0;
    let n = mesh.triangle_indices.len();
    while k < n
        invariant
            0 <= k <= n,
            buffer@ == spec_raster_mesh(
                mesh.triangle_indices@,
                mesh.vertices@,
                k as int,
                *mvp,
                *normal_matrix,
                texture,
                *lighting,
                width as int,
                height as int,
                buf0,
                zbuf0,
            ).0,
            z_buffer@ == spec_raster_mesh(
                mesh.triangle_indices@,
                mesh.vertices@,
                k as int,
                *mvp,
                *normal_matrix,
                texture,
                *lighting,
                width as int,
                height as int,
                buf0,
                zbuf0,
            ).1,
            buffer@.len() == buf0.len(),
            z_buffer@.len() == zbuf0.len(),
        decreases n - k,
    {
        let idx = mesh.triangle_indices[k];
        let vertices = mesh.get_vertices_from_triangle_indices(idx);
        raster_triangle(
            &vertices,
            mvp,
            normal_matrix,
            texture,
            lighting,
            buffer,
            z_buffer,
            width,
            height,
        );
        k = k + 1;
    }
}

} // verus!
