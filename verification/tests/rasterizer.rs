//! Tests for the math utilities, fixed-point layer, geometry model and
//! textures.

use rusterizer::fixed::{fx_add, fx_div, fx_mul, fx_neg, fx_sub, FX_HALF, FX_ONE};
use rusterizer::geometry::{
    get_triangle_bounding_box_2d, Mesh, Triangle, UVec3, Vertex, VerticesOrder,
};
use rusterizer::texture::{texels_from_rgb8, texels_from_rgba8, Texture};
use rusterizer::utils::{
    alpha_of, barycentric_coords, blue_of, coords_to_index, edge_function, from_u8_rgb,
    green_of, index_to_coords, lerp, map_to_range, red_of, to_argb8,
};
use rusterizer::vectors::{Mat4Fx, Vec2Fx, Vec3Fx, Vec4Fx};

fn v2(x: i64, y: i64) -> Vec2Fx {
    Vec2Fx { x, y }
}

fn v3(x: i64, y: i64, z: i64) -> Vec3Fx {
    Vec3Fx { x, y, z }
}

fn v4(x: i64, y: i64, z: i64, w: i64) -> Vec4Fx {
    Vec4Fx { x, y, z, w }
}

fn vert(pos: Vec4Fx) -> Vertex {
    Vertex {
        pos,
        normal: v3(0, 0, 0),
        color: v3(FX_ONE, FX_ONE, FX_ONE),
        uv: v2(0, 0),
    }
}

#[test]
fn fixed_point_basics() {
    assert_eq!(fx_add(2 * FX_ONE, 3 * FX_ONE), 5 * FX_ONE);
    assert_eq!(fx_sub(2 * FX_ONE, 3 * FX_ONE), -FX_ONE);
    assert_eq!(fx_mul(2 * FX_ONE, 3 * FX_ONE), 6 * FX_ONE);
    assert_eq!(fx_div(FX_ONE, 2 * FX_ONE), FX_HALF);
    assert_eq!(fx_neg(5), -5);
    // floor rounding: -1/65536 rounds down to -1
    assert_eq!(fx_mul(-1, 1), -1);
    assert_eq!(fx_mul(1, 1), 0);
}

#[test]
fn fixed_point_saturates() {
    assert_eq!(fx_add(i64::MAX, i64::MAX), i64::MAX);
    assert_eq!(fx_sub(-i64::MAX, i64::MAX), -i64::MAX);
    assert_eq!(fx_neg(i64::MIN), i64::MAX);
    assert_eq!(fx_mul(i64::MAX, i64::MAX), i64::MAX);
}

#[test]
fn packing_round_trip() {
    assert_eq!(from_u8_rgb(255, 0, 0), 0x00FF0000);
    assert_eq!(from_u8_rgb(1, 2, 3), 0x00010203);
    assert_eq!(to_argb8(255, 1, 2, 3), 0xFF010203);
    let c = to_argb8(0xAA, 0xBB, 0xCC, 0xDD);
    assert_eq!(alpha_of(c), 0xAA);
    assert_eq!(red_of(c), 0xBB);
    assert_eq!(green_of(c), 0xCC);
    assert_eq!(blue_of(c), 0xDD);
}

#[test]
fn index_coords_round_trip() {
    assert_eq!(coords_to_index(3, 2, 10), 23);
    assert_eq!(index_to_coords(23, 10), (3, 2));
    let idx = coords_to_index(7, 5, 640);
    assert_eq!(index_to_coords(idx, 640), (7, 5));
}

#[test]
fn edge_function_signed_area() {
    // unit parallelogram at pixel scale
    let e = edge_function(v2(0, FX_ONE), v2(0, 0), v2(FX_ONE, 0));
    assert_eq!(e, FX_ONE * FX_ONE);
}

#[test]
fn edge_function_antisymmetric() {
    // swapping the segment endpoints flips only the sign
    let p = v2(3 * FX_ONE, 5 * FX_ONE);
    let a = v2(-2 * FX_ONE, 7 * FX_ONE);
    let b = v2(11 * FX_ONE, -FX_ONE);
    assert_eq!(edge_function(p, a, b), -edge_function(p, b, a));
    assert_eq!(edge_function(a, b, p), -edge_function(a, p, b));
}

#[test]
fn barycentric_inside_sums_to_one() {
    let v0 = v2(0, 0);
    let v1 = v2(4 * FX_ONE, 0);
    let v2p = v2(0, 4 * FX_ONE);
    let area = edge_function(v0, v1, v2p);
    let w = barycentric_coords(v2(FX_ONE, FX_ONE), v0, v1, v2p, area).unwrap();
    assert_eq!(w, Vec3Fx { x: 32768, y: 16384, z: 16384 });
    assert_eq!(w.x + w.y + w.z, FX_ONE);
    assert!(w.x >= 0 && w.y >= 0 && w.z >= 0);
}

#[test]
fn barycentric_winding_independent() {
    // the same interior point is accepted for both windings
    let v0 = v2(0, 0);
    let v1 = v2(4 * FX_ONE, 0);
    let v2p = v2(0, 4 * FX_ONE);
    let p = v2(FX_ONE, FX_ONE);
    let area_ccw = edge_function(v0, v1, v2p);
    let area_cw = edge_function(v0, v2p, v1);
    assert_eq!(area_cw, -area_ccw);
    let w1 = barycentric_coords(p, v0, v1, v2p, area_ccw);
    let w2 = barycentric_coords(p, v0, v2p, v1, area_cw);
    assert!(w1.is_some());
    assert!(w2.is_some());
}

#[test]
fn barycentric_outside_is_rejected() {
    let v0 = v2(0, 0);
    let v1 = v2(4 * FX_ONE, 0);
    let v2p = v2(0, 4 * FX_ONE);
    let area = edge_function(v0, v1, v2p);
    assert!(barycentric_coords(v2(-FX_ONE, FX_ONE), v0, v1, v2p, area).is_none());
    assert!(barycentric_coords(v2(FX_ONE, -FX_ONE), v0, v1, v2p, area).is_none());
    assert!(barycentric_coords(v2(4 * FX_ONE, 4 * FX_ONE), v0, v1, v2p, area).is_none());
}

#[test]
fn barycentric_degenerate_triangle_covers_nothing() {
    // zero area: every point reports no coverage instead of dividing
    let v0 = v2(0, 0);
    let v1 = v2(FX_ONE, FX_ONE);
    let v2p = v2(2 * FX_ONE, 2 * FX_ONE);
    assert!(barycentric_coords(v2(FX_ONE, FX_ONE), v0, v1, v2p, 0).is_none());
}

#[test]
fn map_to_range_midpoint() {
    assert_eq!(map_to_range(0, -FX_ONE, FX_ONE, 0, 400 * FX_ONE), 200 * FX_ONE);
    assert_eq!(map_to_range(-FX_ONE, -FX_ONE, FX_ONE, 0, 400 * FX_ONE), 0);
    assert_eq!(map_to_range(FX_ONE, -FX_ONE, FX_ONE, 0, 400 * FX_ONE), 400 * FX_ONE);
}

#[test]
fn lerp_midpoint_and_ends() {
    assert_eq!(lerp(0, 10 * FX_ONE, FX_HALF), 5 * FX_ONE);
    assert_eq!(lerp(-FX_ONE, FX_ONE, 0), -FX_ONE);
    assert_eq!(lerp(-FX_ONE, FX_ONE, FX_ONE), FX_ONE);
}

#[test]
fn vertex_componentwise_ops() {
    let a = Vertex {
        pos: v4(FX_ONE, 2 * FX_ONE, 3 * FX_ONE, FX_ONE),
        normal: v3(FX_ONE, 0, 0),
        color: v3(FX_ONE, FX_ONE, 0),
        uv: v2(FX_HALF, 0),
    };
    let b = Vertex {
        pos: v4(FX_ONE, FX_ONE, FX_ONE, FX_ONE),
        normal: v3(0, FX_ONE, 0),
        color: v3(FX_HALF, FX_HALF, FX_HALF),
        uv: v2(FX_HALF, FX_HALF),
    };
    let s = a.add(b);
    assert_eq!(s.pos, v4(2 * FX_ONE, 3 * FX_ONE, 4 * FX_ONE, 2 * FX_ONE));
    assert_eq!(s.uv, v2(FX_ONE, FX_HALF));
    let d = a.sub(b);
    assert_eq!(d.pos, v4(0, FX_ONE, 2 * FX_ONE, 0));
    let m = a.mul(b);
    assert_eq!(m.color, v3(FX_HALF, FX_HALF, 0));
    let h = a.scale(FX_HALF);
    assert_eq!(h.pos, v4(FX_HALF, FX_ONE, FX_ONE + FX_HALF, FX_HALF));
    let l = a.lerp(b, FX_HALF);
    assert_eq!(l.pos, v4(FX_ONE, FX_ONE + FX_HALF, 2 * FX_ONE, FX_ONE));
}

#[test]
fn triangle_reorder_permutations() {
    let a = vert(v4(1, 0, 0, FX_ONE));
    let b = vert(v4(2, 0, 0, FX_ONE));
    let c = vert(v4(3, 0, 0, FX_ONE));
    let t = Triangle { v0: a, v1: b, v2: c };
    assert_eq!(t.reorder(VerticesOrder::ABC), t);
    let acb = t.reorder(VerticesOrder::ACB);
    assert_eq!((acb.v0, acb.v1, acb.v2), (a, c, b));
    let bac = t.reorder(VerticesOrder::BAC);
    assert_eq!((bac.v0, bac.v1, bac.v2), (b, a, c));
    let bca = t.reorder(VerticesOrder::BCA);
    assert_eq!((bca.v0, bca.v1, bca.v2), (b, c, a));
    let cab = t.reorder(VerticesOrder::CAB);
    assert_eq!((cab.v0, cab.v1, cab.v2), (c, a, b));
    let cba = t.reorder(VerticesOrder::CBA);
    assert_eq!((cba.v0, cba.v1, cba.v2), (c, b, a));
}

#[test]
fn triangle_transform_identity() {
    let identity = Mat4Fx {
        x_axis: v4(FX_ONE, 0, 0, 0),
        y_axis: v4(0, FX_ONE, 0, 0),
        z_axis: v4(0, 0, FX_ONE, 0),
        w_axis: v4(0, 0, 0, FX_ONE),
    };
    let t = Triangle {
        v0: vert(v4(FX_ONE, 2 * FX_ONE, 3 * FX_ONE, 7)),
        v1: vert(v4(-FX_ONE, 0, 0, 7)),
        v2: vert(v4(0, FX_ONE, -2 * FX_ONE, 7)),
    };
    let r = t.transform(&identity);
    // positions are re-read as (x, y, z, 1) before the multiply
    assert_eq!(r.v0.pos, v4(FX_ONE, 2 * FX_ONE, 3 * FX_ONE, FX_ONE));
    assert_eq!(r.v1.pos, v4(-FX_ONE, 0, 0, FX_ONE));
    assert_eq!(r.v2.pos, v4(0, FX_ONE, -2 * FX_ONE, FX_ONE));
}

#[test]
fn mesh_sections_and_defaults() {
    let mut mesh = Mesh::new();
    let triangles = vec![UVec3 { x: 0, y: 1, z: 2 }];
    let positions = vec![v3(0, 0, 0), v3(FX_ONE, 0, 0), v3(0, FX_ONE, 0)];
    let normals = vec![v3(0, 0, FX_ONE), v3(0, 0, FX_ONE), v3(0, 0, FX_ONE)];
    let colors: Vec<Vec3Fx> = Vec::new();
    let uvs: Vec<Vec2Fx> = Vec::new();
    mesh.add_section_from_buffers(&triangles, &positions, &normals, &colors, &uvs);
    assert_eq!(mesh.vertices.len(), 3);
    assert_eq!(mesh.triangle_indices.len(), 1);
    // missing colors default to white, missing texture coordinates to zero
    assert_eq!(mesh.vertices[0].color, v3(FX_ONE, FX_ONE, FX_ONE));
    assert_eq!(mesh.vertices[0].uv, v2(0, 0));
    // positions get w = 1
    assert_eq!(mesh.vertices[1].pos, v4(FX_ONE, 0, 0, FX_ONE));
    let (a, b, c) = mesh.get_vertices_from_triangle_indices(UVec3 { x: 0, y: 1, z: 2 });
    assert_eq!(a, mesh.vertices[0]);
    assert_eq!(b, mesh.vertices[1]);
    assert_eq!(c, mesh.vertices[2]);
}

#[test]
fn bounding_box_extents() {
    let bb = get_triangle_bounding_box_2d(
        v2(3 * FX_ONE, -FX_ONE),
        v2(-2 * FX_ONE, 5 * FX_ONE),
        v2(FX_ONE, FX_ONE),
    );
    assert_eq!(bb.left, -2 * FX_ONE);
    assert_eq!(bb.right, 3 * FX_ONE);
    assert_eq!(bb.top, -FX_ONE);
    assert_eq!(bb.bottom, 5 * FX_ONE);
}

#[test]
fn texel_packing_from_bytes() {
    let rgb = vec![10u8, 20, 30, 40, 50, 60];
    let t = texels_from_rgb8(&rgb);
    assert_eq!(t, vec![from_u8_rgb(10, 20, 30), from_u8_rgb(40, 50, 60)]);
    let rgba = vec![1u8, 2, 3, 255, 4, 5, 6, 128];
    let t2 = texels_from_rgba8(&rgba);
    assert_eq!(t2, vec![to_argb8(255, 1, 2, 3), to_argb8(128, 4, 5, 6)]);
}

#[test]
fn texture_from_bytes_depths() {
    let rgba = vec![9u8, 8, 7, 255];
    let t = Texture::from_bytes(1, 1, 4, &rgba);
    assert_eq!(t.data, vec![to_argb8(255, 9, 8, 7)]);
    let rgb = vec![9u8, 8, 7];
    let t2 = Texture::from_bytes(1, 1, 3, &rgb);
    assert_eq!(t2.data, vec![from_u8_rgb(9, 8, 7)]);
}

#[test]
fn texture_sampling_wraps_and_falls_back() {
    let tex = Texture {
        width: 2,
        height: 2,
        data: vec![
            from_u8_rgb(10, 0, 0),
            from_u8_rgb(20, 0, 0),
            from_u8_rgb(30, 0, 0),
            from_u8_rgb(40, 0, 0),
        ],
        depth: 3,
    };
    // u,v in [0,1): quadrant picks the texel
    assert_eq!(tex.rgb_at_uv(0, 0), from_u8_rgb(10, 0, 0));
    assert_eq!(tex.rgb_at_uv(FX_HALF, 0), from_u8_rgb(20, 0, 0));
    assert_eq!(tex.rgb_at_uv(0, FX_HALF), from_u8_rgb(30, 0, 0));
    assert_eq!(tex.rgb_at_uv(FX_HALF, FX_HALF), from_u8_rgb(40, 0, 0));
    // wrapping by modulo: 1.5 lands where 0.5 does, negatives wrap too
    assert_eq!(tex.rgb_at_uv(FX_ONE + FX_HALF, 0), from_u8_rgb(20, 0, 0));
    assert_eq!(tex.rgb_at_uv(-FX_HALF, 0), from_u8_rgb(20, 0, 0));
    // a short data array yields the sentinel color instead of a panic
    let broken = Texture { width: 2, height: 2, data: vec![from_u8_rgb(1, 1, 1)], depth: 3 };
    assert_eq!(broken.rgb_at_uv(FX_HALF, FX_HALF), from_u8_rgb(0, 255, 255));
}
