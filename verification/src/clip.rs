//! Clip/cull stage: whole-triangle view-frustum rejection and near-plane
//! clipping of one clip-space triangle into zero, one or two triangles.

use vstd::prelude::*;
use crate::fixed::{
    fx_div, fx_neg, fx_sub, lemma_expand_product, lemma_swap_product, sat64, spec_div, spec_sub,
};
use crate::geometry::{spec_reorder, spec_vertex_lerp, Triangle, Vertex, VerticesOrder};
use crate::vectors::{spec_vec3_cross, spec_vec3_sub, Vec3Fx, Vec4Fx};

verus! {

/// How many triangles survive clipping: none, the one (possibly
/// clipped) triangle, or two triangles sharing the new near-plane edge.
#[derive(Clone, Copy, PartialEq, Eq, Structural, Debug)]
pub enum ClipResult {
    Culled,
    One(Triangle),
    Two(Triangle, Triangle),
}

/// Conservative view-frustum rejection: the triangle is dropped when all
/// three vertices violate one containment plane together (`|x| <= w`,
/// `|y| <= w`, `z <= w` for the far plane, `z >= 0` for the near plane).
pub open spec fn spec_cull_frustum(t: Triangle) -> bool {
    ||| (t.v0.pos.x > t.v0.pos.w && t.v1.pos.x > t.v1.pos.w && t.v2.pos.x > t.v2.pos.w)
    ||| (t.v0.pos.x + t.v0.pos.w < 0 && t.v1.pos.x + t.v1.pos.w < 0 && t.v2.pos.x + t.v2.pos.w
        < 0)
    ||| (t.v0.pos.y > t.v0.pos.w && t.v1.pos.y > t.v1.pos.w && t.v2.pos.y > t.v2.pos.w)
    ||| (t.v0.pos.y + t.v0.pos.w < 0 && t.v1.pos.y + t.v1.pos.w < 0 && t.v2.pos.y + t.v2.pos.w
        < 0)
    ||| (t.v0.pos.z > t.v0.pos.w && t.v1.pos.z > t.v1.pos.w && t.v2.pos.z > t.v2.pos.w)
    ||| (t.v0.pos.z < 0 && t.v1.pos.z < 0 && t.v2.pos.z < 0)
}

/// Whole-triangle view-frustum rejection test.
pub fn cull_triangle_view_frustum(triangle: &Triangle) -> (r: bool)
    ensures
        r == spec_cull_frustum(*triangle),
{
    if triangle.v0.pos.x > triangle.v0.pos.w && triangle.v1.pos.x > triangle.v1.pos.w
        && triangle.v2.pos.x > triangle.v2.pos.w {
        return true;
    }
    if (triangle.v0.pos.x as i128) + (triangle.v0.pos.w as i128) < 0 && (triangle.v1.pos.x as i128)
        + (triangle.v1.pos.w as i128) < 0 && (triangle.v2.pos.x as i128) + (triangle.v2.pos.w
        as i128) < 0 {
        return true;
    }
    if triangle.v0.pos.y > triangle.v0.pos.w && triangle.v1.pos.y > triangle.v1.pos.w
        && triangle.v2.pos.y > triangle.v2.pos.w {
        return true;
    }
    if (triangle.v0.pos.y as i128) + (triangle.v0.pos.w as i128) < 0 && (triangle.v1.pos.y as i128)
        + (triangle.v1.pos.w as i128) < 0 && (triangle.v2.pos.y as i128) + (triangle.v2.pos.w
        as i128) < 0 {
        return true;
    }
    if triangle.v0.pos.z > triangle.v0.pos.w && triangle.v1.pos.z > triangle.v1.pos.w
        && triangle.v2.pos.z > triangle.v2.pos.w {
        return true;
    }
    if triangle.v0.pos.z < 0 && triangle.v1.pos.z < 0 && triangle.v2.pos.z < 0 {
        return true;
    }
    false
}

/// The interpolation parameter that carries a vertex at depth `z_behind`
/// (negative) onto the near plane toward one at `z_front`.
pub open spec fn spec_clip_alpha(z_behind: int, z_front: int) -> int
    recommends
        z_behind < 0 <= z_front,
{
    spec_div(sat64(-z_behind), spec_sub(z_front, z_behind))
}

/// A clipped vertex sits on the near plane by construction, so its depth
/// is pinned to exactly zero after interpolation.
pub open spec fn spec_snap_near(v: Vertex) -> Vertex {
    Vertex { pos: Vec4Fx { z: 0, ..v.pos }, ..v }
}

/// Clipping with two vertices behind the plane (`v0`, `v1` behind, `v2`
/// in front): both slide toward `v2`, giving one output triangle.
pub open spec fn spec_clip_one(t: Triangle) -> Triangle {
    let alpha_a = spec_clip_alpha(t.v0.pos.z as int, t.v2.pos.z as int);
    let alpha_b = spec_clip_alpha(t.v1.pos.z as int, t.v2.pos.z as int);
    Triangle {
        v0: spec_snap_near(spec_vertex_lerp(t.v0, t.v2, alpha_a)),
        v1: spec_snap_near(spec_vertex_lerp(t.v1, t.v2, alpha_b)),
        v2: t.v2,
    }
}

/// Clipping with one vertex behind the plane (`v0` behind, `v1` and `v2`
/// in front): `v0` splits toward both survivors, giving two triangles
/// that share the new near-plane edge.
pub open spec fn spec_clip_two(t: Triangle) -> (Triangle, Triangle) {
    let alpha_a = spec_clip_alpha(t.v0.pos.z as int, t.v1.pos.z as int);
    let alpha_b = spec_clip_alpha(t.v0.pos.z as int, t.v2.pos.z as int);
    let v0_a = spec_snap_near(spec_vertex_lerp(t.v0, t.v1, alpha_a));
    let v0_b = spec_snap_near(spec_vertex_lerp(t.v0, t.v2, alpha_b));
    (
        Triangle { v0: v0_a, v1: t.v1, v2: t.v2 },
        Triangle { v0: v0_a, v1: v0_b, v2: t.v2 },
    )
}

/// Replace the interpolated depth of a clipped vertex by exactly zero.
fn snap_near(v: Vertex) -> (r: Vertex)
    ensures
        r == spec_snap_near(v),
{
    let mut out = v;
    out.pos.z = 0;
    out
}

/// Near-plane clip for a triangle whose `v0` and `v1` are behind the
/// plane: one output triangle, its two new vertices exactly on the plane.
pub fn clip_triangle_one(triangle: &Triangle) -> (r: Triangle)
    requires
        triangle.v0.pos.z < 0,
        triangle.v1.pos.z < 0,
        triangle.v2.pos.z >= 0,
    ensures
        r == spec_clip_one(*triangle),
        r.v0.pos.z == 0,
        r.v1.pos.z == 0,
        r.v2 == triangle.v2,
{
    let alpha_a = fx_div(
        fx_neg(triangle.v0.pos.z),
        fx_sub(triangle.v2.pos.z, triangle.v0.pos.z),
    );
    let alpha_b = fx_div(
        fx_neg(triangle.v1.pos.z),
        fx_sub(triangle.v2.pos.z, triangle.v1.pos.z),
    );
    let v0 = snap_near(triangle.v0.lerp(triangle.v2, alpha_a));
    let v1 = snap_near(triangle.v1.lerp(triangle.v2, alpha_b));
    Triangle { v0, v1, v2: triangle.v2 }
}

/// Near-plane clip for a triangle whose `v0` alone is behind the plane:
/// two output triangles sharing the new edge, the two new vertices
/// exactly on the plane.
pub fn clip_triangle_two(triangle: &Triangle) -> (r: (Triangle, Triangle))
    requires
        triangle.v0.pos.z < 0,
        triangle.v1.pos.z >= 0,
        triangle.v2.pos.z >= 0,
    ensures
        r == spec_clip_two(*triangle),
        r.0.v0.pos.z == 0,
        r.1.v0.pos.z == 0,
        r.1.v1.pos.z == 0,
        r.0.v1 == triangle.v1,
        r.0.v2 == triangle.v2,
        r.1.v2 == triangle.v2,
{
    let alpha_a = fx_div(
        fx_neg(triangle.v0.pos.z),
        fx_sub(triangle.v1.pos.z, triangle.v0.pos.z),
    );
    let alpha_b = fx_div(
        fx_neg(triangle.v0.pos.z),
        fx_sub(triangle.v2.pos.z, triangle.v0.pos.z),
    );
    let v0_a = snap_near(triangle.v0.lerp(triangle.v1, alpha_a));
    let v0_b = snap_near(triangle.v0.lerp(triangle.v2, alpha_b));
    (
        Triangle { v0: v0_a, v1: triangle.v1, v2: triangle.v2 },
        Triangle { v0: v0_a, v1: v0_b, v2: triangle.v2 },
    )
}

/// The whole clip/cull decision for one clip-space triangle.
pub open spec fn spec_clip_cull(t: Triangle) -> ClipResult {
    if spec_cull_frustum(t) {
        ClipResult::Culled
    } else if t.v0.pos.z < 0 {
        if t.v1.pos.z < 0 {
            ClipResult::One(spec_clip_one(t))
        } else if t.v2.pos.z < 0 {
            ClipResult::One(spec_clip_one(spec_reorder(t, VerticesOrder::ACB)))
        } else {
            let pair = spec_clip_two(spec_reorder(t, VerticesOrder::ACB));
            ClipResult::Two(pair.0, pair.1)
        }
    } else if t.v1.pos.z < 0 {
        if t.v2.pos.z < 0 {
            ClipResult::One(spec_clip_one(spec_reorder(t, VerticesOrder::BCA)))
        } else {
            let pair = spec_clip_two(spec_reorder(t, VerticesOrder::BAC));
            ClipResult::Two(pair.0, pair.1)
        }
    } else if t.v2.pos.z < 0 {
        let pair = spec_clip_two(spec_reorder(t, VerticesOrder::CBA));
        ClipResult::Two(pair.0, pair.1)
    } else {
        ClipResult::One(t)
    }
}

/// Frustum-reject, then classify by how many vertices sit behind the
/// near plane and clip accordingly. A triangle entirely in front of the
/// near plane and not frustum-rejected comes back unchanged.
pub fn clip_cull_triangle(triangle: &Triangle) -> (r: ClipResult)
    ensures
        r == spec_clip_cull(*triangle),
        !spec_cull_frustum(*triangle) && triangle.v0.pos.z >= 0 && triangle.v1.pos.z >= 0
            && triangle.v2.pos.z >= 0 ==> r == ClipResult::One(*triangle),
{
    if cull_triangle_view_frustum(triangle) {
        ClipResult::Culled
    } else {
        if triangle.v0.pos.z < 0 {
            if triangle.v1.pos.z < 0 {
                ClipResult::One(clip_triangle_one(triangle))
            } else if triangle.v2.pos.z < 0 {
                ClipResult::One(clip_triangle_one(&triangle.reorder(VerticesOrder::ACB)))
            } else {
                let pair = clip_triangle_two(&triangle.reorder(VerticesOrder::ACB));
                ClipResult::Two(pair.0, pair.1)
            }
        } else if triangle.v1.pos.z < 0 {
            if triangle.v2.pos.z < 0 {
                ClipResult::One(clip_triangle_one(&triangle.reorder(VerticesOrder::BCA)))
            } else {
                let pair = clip_triangle_two(&triangle.reorder(VerticesOrder::BAC));
                ClipResult::Two(pair.0, pair.1)
            }
        } else if triangle.v2.pos.z < 0 {
            let pair = clip_triangle_two(&triangle.reorder(VerticesOrder::CBA));
            ClipResult::Two(pair.0, pair.1)
        } else {
            ClipResult::One(*triangle)
        }
    }
}

/// Twice the signed area of the triangle `(a, b, c)` in the xy plane.
pub open spec fn spec_area2_xy(a: Vertex, b: Vertex, c: Vertex) -> int {
    (b.pos.x - a.pos.x) * (c.pos.y - a.pos.y) - (b.pos.y - a.pos.y) * (c.pos.x - a.pos.x)
}

/// Twice the signed area of the quadrilateral `a -> b -> c -> d`, by the
/// shoelace sum around its boundary.
pub open spec fn spec_quad_area2_xy(a: Vertex, b: Vertex, c: Vertex, d: Vertex) -> int {
    (a.pos.x * b.pos.y - b.pos.x * a.pos.y) + (b.pos.x * c.pos.y - c.pos.x * b.pos.y) + (c.pos.x
        * d.pos.y - d.pos.x * c.pos.y) + (d.pos.x * a.pos.y - a.pos.x * d.pos.y)
}


/// Fan decomposition of a quadrilateral: the two triangles hung off one
/// corner tile it exactly, whatever the four points are.
proof fn lemma_fan_tiles_quad(a: Vertex, u: Vertex, v: Vertex, w: Vertex)
    ensures
        spec_area2_xy(a, u, v) + spec_area2_xy(a, v, w) == spec_quad_area2_xy(a, u, v, w),
{
    let ax = a.pos.x as int;
    let ay = a.pos.y as int;
    let ux = u.pos.x as int;
    let uy = u.pos.y as int;
    let vx = v.pos.x as int;
    let vy = v.pos.y as int;
    let wx = w.pos.x as int;
    let wy = w.pos.y as int;
    lemma_expand_product(ux, ax, vy, ay);
    lemma_expand_product(uy, ay, vx, ax);
    lemma_expand_product(vx, ax, wy, ay);
    lemma_expand_product(vy, ay, wx, ax);
    lemma_swap_product(ax, uy);
    lemma_swap_product(ux, ay);
    lemma_swap_product(ax, vy);
    lemma_swap_product(vx, ay);
    lemma_swap_product(ax, wy);
    lemma_swap_product(wx, ay);
    lemma_swap_product(ux, vy);
    lemma_swap_product(vx, uy);
    lemma_swap_product(vx, wy);
    lemma_swap_product(wx, vy);
    lemma_swap_product(ax, ay);
}

/// Splitting one behind-vertex toward both survivors yields two
/// triangles that together tile, exactly, the quadrilateral spanned by
/// the two computed near-plane vertices and the two survivors. The
/// second triangle comes out with flipped winding, so its corners are
/// read in reverse here.
pub proof fn lemma_clip_two_tiles_quad(t: Triangle)
    requires
        t.v0.pos.z < 0,
        t.v1.pos.z >= 0,
        t.v2.pos.z >= 0,
    ensures
        ({
            let pair = spec_clip_two(t);
            spec_area2_xy(pair.0.v0, pair.0.v1, pair.0.v2) + spec_area2_xy(
                pair.1.v0,
                pair.1.v2,
                pair.1.v1,
            ) == spec_quad_area2_xy(pair.0.v0, pair.0.v1, pair.0.v2, pair.1.v1)
        }),
{
    let pair = spec_clip_two(t);
    lemma_fan_tiles_quad(pair.0.v0, pair.0.v1, pair.0.v2, pair.1.v1);
}

/// With exactly one vertex behind the near plane, clipping yields two
/// triangles; the two fresh vertices lie exactly on the plane and both
/// triangles share the first of them.
pub proof fn lemma_clip_one_behind(t: Triangle)
    requires
        !spec_cull_frustum(t),
        ({
            ||| (t.v0.pos.z < 0 && t.v1.pos.z >= 0 && t.v2.pos.z >= 0)
            ||| (t.v0.pos.z >= 0 && t.v1.pos.z < 0 && t.v2.pos.z >= 0)
            ||| (t.v0.pos.z >= 0 && t.v1.pos.z >= 0 && t.v2.pos.z < 0)
        }),
    ensures
        spec_clip_cull(t) matches ClipResult::Two(a, b) && a.v0.pos.z == 0 && b.v0.pos.z == 0
            && b.v1.pos.z == 0 && a.v0 == b.v0 && a.v2 == b.v2,
{
}

/// With exactly two vertices behind the near plane, clipping yields one
/// triangle whose two fresh vertices lie exactly on the plane while the
/// surviving vertex keeps its depth.
pub proof fn lemma_clip_two_behind(t: Triangle)
    requires
        !spec_cull_frustum(t),
        ({
            ||| (t.v0.pos.z < 0 && t.v1.pos.z < 0 && t.v2.pos.z >= 0)
            ||| (t.v0.pos.z < 0 && t.v1.pos.z >= 0 && t.v2.pos.z < 0)
            ||| (t.v0.pos.z >= 0 && t.v1.pos.z < 0 && t.v2.pos.z < 0)
        }),
    ensures
        spec_clip_cull(t) matches ClipResult::One(c) && c.v0.pos.z == 0 && c.v1.pos.z == 0
            && c.v2.pos.z >= 0,
{
}

/// Back-face test: the z component of the (unnormalized) face normal
/// against the fixed view direction; nonnegative means facing away.
pub open spec fn spec_cull_backface(t: Triangle) -> bool {
    let a = spec_vec3_sub(
        Vec3Fx { x: t.v1.pos.x, y: t.v1.pos.y, z: t.v1.pos.z },
        Vec3Fx { x: t.v1.pos.w, y: t.v1.pos.w, z: t.v1.pos.w },
    );
    let b = spec_vec3_sub(
        Vec3Fx { x: t.v2.pos.x, y: t.v2.pos.y, z: t.v2.pos.z },
        Vec3Fx { x: t.v0.pos.x, y: t.v0.pos.y, z: t.v0.pos.z },
    );
    spec_vec3_cross(a, b).z <= 0
}

/// Whether the triangle faces away from the camera.
pub fn cull_triangle_backface(triangle: &Triangle) -> (r: bool)
    ensures
        r == spec_cull_backface(*triangle),
{
    let w = triangle.v1.pos.w;
    let a = triangle.v1.pos.xyz().sub(Vec3Fx { x: w, y: w, z: w });
    let b = triangle.v2.pos.xyz().sub(triangle.v0.pos.xyz());
    let normal = a.cross(b);
    normal.z <= 0
}

} // verus!
