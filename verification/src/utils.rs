//! Rasterizer math utilities: color packing, pixel indexing, the edge
//! function, the barycentric-coordinate solver, linear remapping and
//! interpolation.

use vstd::prelude::*;
use vstd::arithmetic::div_mod::{
    lemma_div_by_self, lemma_div_is_ordered, lemma_div_multiples_vanish, lemma_div_pos_is_pos,
    lemma_fundamental_div_mod, lemma_mod_division_less_than_divisor,
};
use crate::fixed::{
    fdiv, fx_add, fx_div, fx_mul, fx_sub, lemma_expand_product, lemma_mul_fits, lemma_swap_product,
    sat64, spec_add, spec_div, spec_mul, spec_sub, FX_ONE,
};
use crate::vectors::{Vec2Fx, Vec3Fx};

verus! {

/// Largest magnitude a screen-space coordinate may take when it feeds an
/// edge-function evaluation: the cross product of two coordinate
/// differences must itself fit in an `i64`, which caps coordinates at
/// +/-8192 px (coordinates up to `2^29` give differences up to `2^30`
/// and a cross product up to `2^61`). Widening within 64 bits could at
/// most double this; anything more would need 128-bit coverage math.
pub const COORD_LIMIT: i64 = 0x2000_0000;

/// Largest magnitude the range endpoints of `map_to_range` may take.
pub const RANGE_LIMIT: i64 = 0x4000_0000_0000;

/// Pack red, green and blue bytes into one color word: the zero-alpha
/// case of the crate's one canonical `0xAARRGGBB` layout.
pub fn from_u8_rgb(r: u8, g: u8, b: u8) -> (c: u32)
    ensures
        c == r * 0x10000 + g * 0x100 + b,
{
    (r as u32) * 0x10000 + (g as u32) * 0x100 + (b as u32)
}

/// Pack alpha, red, green and blue bytes into one `0xAARRGGBB` color word.
pub fn to_argb8(a: u8, r: u8, g: u8, b: u8) -> (c: u32)
    ensures
        c == a * 0x1000000 + r * 0x10000 + g * 0x100 + b,
{
    (a as u32) * 0x1000000 + (r as u32) * 0x10000 + (g as u32) * 0x100 + (b as u32)
}

/// The alpha byte of a packed `0xAARRGGBB` color.
pub fn alpha_of(c: u32) -> (r: u8)
    ensures
        r == (c as int / 0x1000000) % 0x100,
{
    ((c / 0x1000000) % 0x100) as u8
}

/// The red byte of a packed `0xAARRGGBB` color.
pub fn red_of(c: u32) -> (r: u8)
    ensures
        r == (c as int / 0x10000) % 0x100,
{
    ((c / 0x10000) % 0x100) as u8
}

/// The green byte of a packed `0xAARRGGBB` color.
pub fn green_of(c: u32) -> (r: u8)
    ensures
        r == (c as int / 0x100) % 0x100,
{
    ((c / 0x100) % 0x100) as u8
}

/// The blue byte of a packed `0xAARRGGBB` color.
pub fn blue_of(c: u32) -> (r: u8)
    ensures
        r == c as int % 0x100,
{
    (c % 0x100) as u8
}

/// Recover pixel coordinates from a flat buffer index.
pub fn index_to_coords(p: usize, width: usize) -> (r: (usize, usize))
    requires
        width > 0,
    ensures
        r.0 == p as int % width as int,
        r.1 == p as int / width as int,
{
    (p % width, p / width)
}

/// Flatten pixel coordinates into a buffer index.
pub fn coords_to_index(x: usize, y: usize, width: usize) -> (r: usize)
    requires
        x + y * width <= usize::MAX,
    ensures
        r == x + y * width,
{
    x + y * width
}

/// True when both coordinates are small enough for edge-function math.
pub open spec fn vec2_in_range(v: Vec2Fx) -> bool {
    -COORD_LIMIT <= v.x <= COORD_LIMIT && -COORD_LIMIT <= v.y <= COORD_LIMIT
}

/// Runtime test for `vec2_in_range`.
pub fn check_vec2_in_range(v: Vec2Fx) -> (r: bool)
    ensures
        r == vec2_in_range(v),
{
    -COORD_LIMIT <= v.x && v.x <= COORD_LIMIT && -COORD_LIMIT <= v.y && v.y <= COORD_LIMIT
}

/// The signed area of the parallelogram spanned by `b - a` and `p - a`;
/// its sign tells which side of the line `a -> b` the point `p` lies on.
pub open spec fn spec_edge(p: Vec2Fx, a: Vec2Fx, b: Vec2Fx) -> int {
    (b.x - a.x) * (p.y - a.y) - (b.y - a.y) * (p.x - a.x)
}

/// Edge function: exact signed parallelogram area; no rounding happens
/// because the coordinates are bounded by `COORD_LIMIT`.
pub fn edge_function(point: Vec2Fx, v0: Vec2Fx, v1: Vec2Fx) -> (r: i64)
    requires
        vec2_in_range(point),
        vec2_in_range(v0),
        vec2_in_range(v1),
    ensures
        r as int == spec_edge(point, v0, v1),
{
    let ax: i128 = v1.x as i128 - v0.x as i128;
    let ay: i128 = v1.y as i128 - v0.y as i128;
    let bx: i128 = point.x as i128 - v0.x as i128;
    let by: i128 = point.y as i128 - v0.y as i128;
    proof {
        lemma_mul_fits(ax as int, by as int, 0x4000_0000, 0x4000_0000);
        lemma_mul_fits(ay as int, bx as int, 0x4000_0000, 0x4000_0000);
    }
    (ax * by - ay * bx) as i64
}

/// Whether three barycentric weights all share one sign, the acceptance
/// test of the point-in-triangle check (winding-order independent).
pub open spec fn spec_bary_accept(w0: int, w1: int, w2: int) -> bool {
    (w0 <= 0 && w1 <= 0 && w2 <= 0) || (w0 >= 0 && w1 >= 0 && w2 >= 0)
}

/// What the barycentric-coordinate solver returns: two weights from edge
/// functions scaled by the triangle area, the third from the partition of
/// unity; a degenerate (zero-area) triangle covers nothing.
pub open spec fn spec_barycentric(
    point: Vec2Fx,
    v0: Vec2Fx,
    v1: Vec2Fx,
    v2: Vec2Fx,
    area: int,
) -> Option<Vec3Fx> {
    if area == 0 {
        None
    } else {
        let w0 = spec_div(spec_edge(point, v1, v2), area);
        let w1 = spec_div(spec_edge(point, v2, v0), area);
        let w2 = spec_sub(spec_sub(FX_ONE as int, w0), w1);
        if spec_bary_accept(w0, w1, w2) {
            Some(Vec3Fx { x: w0 as i64, y: w1 as i64, z: w2 as i64 })
        } else {
            None
        }
    }
}

/// Barycentric weights of `point` with respect to the triangle
/// `(v0, v1, v2)` whose signed double area is `triangle_area`; `None`
/// when the point is not covered or the triangle is degenerate.
pub fn barycentric_coords(
    point: Vec2Fx,
    v0: Vec2Fx,
    v1: Vec2Fx,
    v2: Vec2Fx,
    triangle_area: i64,
) -> (r: Option<Vec3Fx>)
    requires
        vec2_in_range(point),
        vec2_in_range(v0),
        vec2_in_range(v1),
        vec2_in_range(v2),
    ensures
        r == spec_barycentric(point, v0, v1, v2, triangle_area as int),
{
    if triangle_area == 0 {
        return None;
    }
    let w0 = fx_div(edge_function(point, v1, v2), triangle_area);
    let w1 = fx_div(edge_function(point, v2, v0), triangle_area);
    let w2 = fx_sub(fx_sub(FX_ONE, w0), w1);
    if (w0 <= 0 && w1 <= 0 && w2 <= 0) || (w0 >= 0 && w1 >= 0 && w2 >= 0) {
        Some(Vec3Fx { x: w0, y: w1, z: w2 })
    } else {
        None
    }
}

/// The edge function changes only its sign when the segment endpoints
/// swap, so either winding of a triangle yields the same coverage test.
pub proof fn lemma_edge_antisymmetric(p: Vec2Fx, a: Vec2Fx, b: Vec2Fx)
    ensures
        spec_edge(p, a, b) == -spec_edge(p, b, a),
{
    let px = p.x as int;
    let py = p.y as int;
    let ax = a.x as int;
    let ay = a.y as int;
    let bx = b.x as int;
    let by = b.y as int;
    assert((bx - ax) * (py - ay) - (by - ay) * (px - ax) == -((ax - bx) * (py - by) - (ay - by) * (
    px - bx))) by (nonlinear_arith);
}

/// The three edge functions of a point against a triangle's sides sum to
/// the triangle's own signed double area, whatever the point.
pub proof fn lemma_edge_sum(p: Vec2Fx, v0: Vec2Fx, v1: Vec2Fx, v2: Vec2Fx)
    ensures
        spec_edge(p, v1, v2) + spec_edge(p, v2, v0) + spec_edge(p, v0, v1) == spec_edge(
            v0,
            v1,
            v2,
        ),
{
    let px = p.x as int;
    let py = p.y as int;
    let x0 = v0.x as int;
    let y0 = v0.y as int;
    let x1 = v1.x as int;
    let y1 = v1.y as int;
    let x2 = v2.x as int;
    let y2 = v2.y as int;
    // expand every product into monomials; the cancellation is then linear
    lemma_expand_product(x2, x1, py, y1);
    lemma_expand_product(y2, y1, px, x1);
    lemma_expand_product(x0, x2, py, y2);
    lemma_expand_product(y0, y2, px, x2);
    lemma_expand_product(x1, x0, py, y0);
    lemma_expand_product(y1, y0, px, x0);
    lemma_expand_product(x2, x1, y0, y1);
    lemma_expand_product(y2, y1, x0, x1);
    lemma_swap_product(x0, y2);
    lemma_swap_product(x1, y2);
    lemma_swap_product(x2, y0);
    lemma_swap_product(x1, y0);
    lemma_swap_product(x0, y1);
    lemma_swap_product(x2, y1);
    lemma_swap_product(x0, y0);
    lemma_swap_product(x1, y1);
    lemma_swap_product(x2, y2);
}

/// Quotient of a negative numerator by a positive divisor stays negative.
proof fn lemma_div_neg_is_neg(x: int, d: int)
    requires
        x < 0,
        0 < d,
    ensures
        x / d <= -1,
{
    lemma_fundamental_div_mod(x, d);
    lemma_mod_division_less_than_divisor(x, d);
    assert(d * (x / d) < 0);
    assert(x / d < 0) by (nonlinear_arith)
        requires
            0 < d && d * (x / d) < 0,
    ;
}

/// A quotient of a numerator at least as large as its positive divisor
/// is at least one.
proof fn lemma_div_at_least_one(x: int, d: int)
    requires
        0 < d <= x,
    ensures
        x / d >= 1,
{
    lemma_div_is_ordered(d, x, d);
    lemma_div_by_self(d);
}

/// Weight numerators strictly inside the (sign-normalized) triangle give
/// two floor weights in `[0, 1]` and a positive derived third weight,
/// with the three summing exactly to one.
proof fn lemma_weights_interior(f0: int, f1: int, f2: int, m: int)
    requires
        0 < m,
        0 < f0,
        0 < f1,
        0 < f2,
        f0 + f1 + f2 == m,
    ensures
        ({
            let w0 = sat64((f0 * 65536) / m);
            let w1 = sat64((f1 * 65536) / m);
            let w2 = spec_sub(spec_sub(65536, w0), w1);
            0 <= w0 <= 65536 && 0 <= w1 <= 65536 && 0 < w2 <= 65536 && w0 + w1 + w2 == 65536
        }),
{
    let q0 = (f0 * 65536) / m;
    let q1 = (f1 * 65536) / m;
    lemma_div_pos_is_pos(f0 * 65536, m);
    lemma_div_pos_is_pos(f1 * 65536, m);
    assert(f0 * 65536 <= m * 65536 && f1 * 65536 <= m * 65536) by (nonlinear_arith)
        requires
            f0 <= m && f1 <= m,
    ;
    lemma_div_is_ordered(f0 * 65536, m * 65536, m);
    lemma_div_is_ordered(f1 * 65536, m * 65536, m);
    lemma_div_multiples_vanish(65536, m);
    assert(q0 <= 65536 && q1 <= 65536);
    // the two floor weights underestimate their exact ratios, whose sum
    // stays strictly under one because f2 is positive
    lemma_fundamental_div_mod(f0 * 65536, m);
    lemma_mod_division_less_than_divisor(f0 * 65536, m);
    lemma_fundamental_div_mod(f1 * 65536, m);
    lemma_mod_division_less_than_divisor(f1 * 65536, m);
    assert(m * q0 <= f0 * 65536);
    assert(m * q1 <= f1 * 65536);
    assert(q0 + q1 < 65536) by (nonlinear_arith)
        requires
            0 < m,
            m * q0 <= f0 * 65536,
            m * q1 <= f1 * 65536,
            0 < f2,
            f0 + f1 + f2 == m,
    ;
}

/// Sign-normalized weight numerators of a point strictly outside (with
/// a rounding margin on the third weight) never all share one sign.
proof fn lemma_weights_exterior(f0: int, f1: int, f2: int, m: int)
    requires
        0 < m,
        f0 + f1 + f2 == m,
        f0 <= -1 || f1 <= -1 || f2 * 65536 <= -3 * m,
    ensures
        ({
            let w0 = sat64((f0 * 65536) / m);
            let w1 = sat64((f1 * 65536) / m);
            let w2 = spec_sub(spec_sub(65536, w0), w1);
            !spec_bary_accept(w0, w1, w2)
        }),
{
    let q0 = (f0 * 65536) / m;
    let q1 = (f1 * 65536) / m;
    let w0 = sat64(q0);
    let w1 = sat64(q1);
    let w2 = spec_sub(spec_sub(65536, w0), w1);
    if f0 <= -1 {
        lemma_div_neg_is_neg(f0 * 65536, m);
        assert(w0 <= -1);
        if w1 <= 0 {
            assert(w2 > 0);
        }
    } else if f1 <= -1 {
        lemma_div_neg_is_neg(f1 * 65536, m);
        assert(w1 <= -1);
        if w0 <= 0 {
            assert(w2 > 0);
        }
    } else {
        // margin case on the derived third weight
        if w0 <= 0 && w1 <= 0 {
            // impossible: the first two numerators would be too small to
            // reach the (large) remainder m - f2
            assert(q0 <= 0 && q1 <= 0);
            if f0 * 65536 >= m {
                lemma_div_at_least_one(f0 * 65536, m);
                assert(false);
            }
            if f1 * 65536 >= m {
                lemma_div_at_least_one(f1 * 65536, m);
                assert(false);
            }
            assert(false) by (nonlinear_arith)
                requires
                    0 < m,
                    f0 * 65536 <= m - 1,
                    f1 * 65536 <= m - 1,
                    f2 * 65536 <= -3 * m,
                    f0 + f1 + f2 == m,
            ;
        } else if w0 >= 0 && w1 >= 0 {
            // both weights nonnegative: the third must come out negative
            if q0 > 0x7fff_ffff_ffff_ffff || q1 > 0x7fff_ffff_ffff_ffff {
                assert(w0 + w1 >= 65537);
            } else {
                lemma_fundamental_div_mod(f0 * 65536, m);
                lemma_mod_division_less_than_divisor(f0 * 65536, m);
                lemma_fundamental_div_mod(f1 * 65536, m);
                lemma_mod_division_less_than_divisor(f1 * 65536, m);
                assert(w0 + w1 >= 65537) by (nonlinear_arith)
                    requires
                        0 < m,
                        w0 == q0 && w1 == q1,
                        m * q0 > f0 * 65536 - m,
                        m * q1 > f1 * 65536 - m,
                        f2 * 65536 <= -3 * m,
                        f0 + f1 + f2 == m,
                ;
            }
            assert(w2 <= -1);
        }
    }
}

/// For all points strictly inside a non-degenerate triangle, the solver
/// returns weights that sum exactly to one and are all nonnegative,
/// whatever the triangle's winding.
pub proof fn lemma_barycentric_covers_interior(point: Vec2Fx, v0: Vec2Fx, v1: Vec2Fx, v2: Vec2Fx)
    requires
        ({
            let area = spec_edge(v0, v1, v2);
            let e0 = spec_edge(point, v1, v2);
            let e1 = spec_edge(point, v2, v0);
            let e2 = spec_edge(point, v0, v1);
            (area > 0 && e0 > 0 && e1 > 0 && e2 > 0) || (area < 0 && e0 < 0 && e1 < 0 && e2 < 0)
        }),
    ensures
        spec_barycentric(point, v0, v1, v2, spec_edge(v0, v1, v2)) matches Some(w) && w.x + w.y
            + w.z == FX_ONE && w.x >= 0 && w.y >= 0 && w.z > 0,
{
    let area = spec_edge(v0, v1, v2);
    let e0 = spec_edge(point, v1, v2);
    let e1 = spec_edge(point, v2, v0);
    let e2 = spec_edge(point, v0, v1);
    lemma_edge_sum(point, v0, v1, v2);
    if area > 0 {
        lemma_weights_interior(e0, e1, e2, area);
    } else {
        lemma_weights_interior(-e0, -e1, -e2, -area);
    }
}

/// For all points strictly outside a non-degenerate triangle — outside
/// one of the first two edges by any amount, or outside the third by
/// more than the rounding margin `3 |area| / 65536` that the derived
/// third weight inherits — the solver reports no coverage.
pub proof fn lemma_barycentric_rejects_exterior(point: Vec2Fx, v0: Vec2Fx, v1: Vec2Fx, v2: Vec2Fx)
    requires
        spec_edge(v0, v1, v2) != 0,
        ({
            let area = spec_edge(v0, v1, v2);
            let e0 = spec_edge(point, v1, v2);
            let e1 = spec_edge(point, v2, v0);
            let e2 = spec_edge(point, v0, v1);
            if area > 0 {
                e0 <= -1 || e1 <= -1 || e2 * 65536 <= -3 * area
            } else {
                e0 >= 1 || e1 >= 1 || e2 * 65536 >= -3 * area
            }
        }),
    ensures
        spec_barycentric(point, v0, v1, v2, spec_edge(v0, v1, v2)) == None::<Vec3Fx>,
{
    let area = spec_edge(v0, v1, v2);
    let e0 = spec_edge(point, v1, v2);
    let e1 = spec_edge(point, v2, v0);
    let e2 = spec_edge(point, v0, v1);
    lemma_edge_sum(point, v0, v1, v2);
    if area > 0 {
        lemma_weights_exterior(e0, e1, e2, area);
    } else {
        lemma_weights_exterior(-e0, -e1, -e2, -area);
    }
}

/// Linear remap of `v` from the range `[a1, a2]` to the range `[b1, b2]`.
pub open spec fn spec_map_to_range(v: int, a1: int, a2: int, b1: int, b2: int) -> int {
    sat64(b1 + fdiv((v - a1) * (b2 - b1), a2 - a1))
}

/// Linear remap, used to turn normalized device coordinates into pixel
/// coordinates.
pub fn map_to_range(v: i64, a1: i64, a2: i64, b1: i64, b2: i64) -> (r: i64)
    requires
        a1 != a2,
        -RANGE_LIMIT <= a1 <= RANGE_LIMIT,
        -RANGE_LIMIT <= a2 <= RANGE_LIMIT,
        -RANGE_LIMIT <= b1 <= RANGE_LIMIT,
        -RANGE_LIMIT <= b2 <= RANGE_LIMIT,
    ensures
        r as int == spec_map_to_range(v as int, a1 as int, a2 as int, b1 as int, b2 as int),
{
    let dv: i128 = v as i128 - a1 as i128;
    let db: i128 = b2 as i128 - b1 as i128;
    proof {
        lemma_mul_fits(dv as int, db as int, 0x8000_4000_0000_0000, 0x8000_0000_0000);
    }
    let num: i128 = dv * db;
    let den: i128 = a2 as i128 - a1 as i128;
    let q: i128 = if den > 0 {
        crate::fixed::floor_div128(num, den)
    } else {
        crate::fixed::floor_div128(-num, -den)
    };
    crate::fixed::clamp128(b1 as i128 + q)
}

/// Fixed-point affine interpolation from `start` to `end` by `alpha`.
pub open spec fn spec_lerp(start: int, end: int, alpha: int) -> int {
    spec_add(start, spec_mul(spec_sub(end, start), alpha))
}

/// Affine interpolation `start + (end - start) * alpha`.
pub fn lerp(start: i64, end: i64, alpha: i64) -> (r: i64)
    ensures
        r as int == spec_lerp(start as int, end as int, alpha as int),
{
    fx_add(start, fx_mul(fx_sub(end, start), alpha))
}

} // verus!
