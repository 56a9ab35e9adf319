//! Tests for the clip/cull stage and the rasterization pipeline.

use rusterizer::clip::{
    clip_cull_triangle, clip_triangle_one, clip_triangle_two, cull_triangle_backface,
    cull_triangle_view_frustum, ClipResult,
};
use rusterizer::fixed::{FX_HALF, FX_ONE};
use rusterizer::geometry::{Mesh, Triangle, UVec3, Vertex};
use rusterizer::raster::{
    raster_clipped_triangle, raster_mesh, raster_mesh_2d, raster_triangle, raster_triangle_2d,
    triangle_screen_bounding_box, Lighting,
};
use rusterizer::texture::Texture;
use rusterizer::utils::{barycentric_coords, edge_function, from_u8_rgb, to_argb8};
use rusterizer::vectors::{Mat4Fx, Vec2Fx, Vec3Fx, Vec4Fx};

fn v2(x: i64, y: i64) -> Vec2Fx {
    Vec2Fx { x, y }
}

fn v3(x: i64, y: i64, z: i64) -> Vec3Fx {
    Vec3Fx { x, y, z }
}

fn v4(x: i64, y: i64, z: i64, w: i64) -> Vec4Fx {
    Vec4Fx { x, y, z, w }
}

fn vert(pos: Vec4Fx) -> Vertex {
    Vertex {
        pos,
        normal: v3(0, 0, 0),
        color: v3(FX_ONE, FX_ONE, FX_ONE),
        uv: v2(0, 0),
    }
}

fn identity() -> Mat4Fx {
    Mat4Fx {
        x_axis: v4(FX_ONE, 0, 0, 0),
        y_axis: v4(0, FX_ONE, 0, 0),
        z_axis: v4(0, 0, FX_ONE, 0),
        w_axis: v4(0, 0, 0, FX_ONE),
    }
}

#[test]
fn frustum_cull_rejects_fully_outside() {
    // all three vertices behind the near plane
    let behind = Triangle {
        v0: vert(v4(0, 0, -FX_ONE, FX_ONE)),
        v1: vert(v4(FX_ONE, 0, -FX_ONE, FX_ONE)),
        v2: vert(v4(0, FX_ONE, -2 * FX_ONE, FX_ONE)),
    };
    assert!(cull_triangle_view_frustum(&behind));
    // all three beyond the right plane
    let right = Triangle {
        v0: vert(v4(2 * FX_ONE, 0, FX_HALF, FX_ONE)),
        v1: vert(v4(3 * FX_ONE, 0, FX_HALF, FX_ONE)),
        v2: vert(v4(2 * FX_ONE, FX_ONE, FX_HALF, FX_ONE)),
    };
    assert!(cull_triangle_view_frustum(&right));
    // a visible triangle passes
    let visible = Triangle {
        v0: vert(v4(0, 0, FX_HALF, FX_ONE)),
        v1: vert(v4(FX_HALF, 0, FX_HALF, FX_ONE)),
        v2: vert(v4(0, FX_HALF, FX_HALF, FX_ONE)),
    };
    assert!(!cull_triangle_view_frustum(&visible));
}

#[test]
fn clip_returns_front_triangle_unchanged() {
    // every vertex depth is nonnegative: the triangle comes back as-is
    let t = Triangle {
        v0: vert(v4(0, 0, 0, FX_ONE)),
        v1: vert(v4(FX_HALF, 0, FX_HALF, FX_ONE)),
        v2: vert(v4(0, FX_HALF, FX_ONE, 2 * FX_ONE)),
    };
    assert_eq!(clip_cull_triangle(&t), ClipResult::One(t));
}

#[test]
fn clip_one_vertex_behind_gives_two_triangles() {
    let v0 = vert(v4(0, 0, -FX_ONE, FX_ONE));
    let v1 = vert(v4(2 * FX_ONE, 0, FX_ONE, FX_ONE));
    let v2 = vert(v4(0, 2 * FX_ONE, FX_ONE, FX_ONE));
    let t = Triangle { v0, v1, v2 };
    match clip_cull_triangle(&t) {
        ClipResult::Two(a, b) => {
            // both fresh vertices sit exactly on the near plane
            assert_eq!(a.v0.pos.z, 0);
            assert_eq!(b.v0.pos.z, 0);
            assert_eq!(b.v1.pos.z, 0);
            assert_eq!(a.v0, b.v0);
            // the split vertex moved halfway toward each survivor
            // (the clip stage walks the reordered triangle (v0, v2, v1))
            assert_eq!(a.v0.pos, v4(0, FX_ONE, 0, FX_ONE));
            assert_eq!(b.v1.pos, v4(FX_ONE, 0, 0, FX_ONE));
            assert_eq!(a.v1, v2);
            assert_eq!(a.v2, v1);
            assert_eq!(b.v2, v1);
        },
        _ => panic!("expected two triangles"),
    }
}

#[test]
fn clip_two_vertices_behind_gives_one_triangle() {
    let v0 = vert(v4(0, 0, -FX_ONE, FX_ONE));
    let v1 = vert(v4(2 * FX_ONE, 0, -FX_ONE, FX_ONE));
    let v2 = vert(v4(0, 2 * FX_ONE, FX_ONE, FX_ONE));
    let t = Triangle { v0, v1, v2 };
    match clip_cull_triangle(&t) {
        ClipResult::One(c) => {
            // the two fresh vertices sit exactly on the near plane and
            // the survivor keeps its depth
            assert_eq!(c.v0.pos.z, 0);
            assert_eq!(c.v1.pos.z, 0);
            assert_eq!(c.v2, v2);
            // both behind vertices moved halfway toward the survivor
            assert_eq!(c.v0.pos, v4(0, FX_ONE, 0, FX_ONE));
            assert_eq!(c.v1.pos, v4(FX_ONE, FX_ONE, 0, FX_ONE));
        },
        _ => panic!("expected one triangle"),
    }
}

#[test]
fn clip_two_output_tiles_the_visible_quad() {
    // one vertex behind: the two outputs tile the quadrilateral spanned
    // by the fresh near-plane vertices and the two survivors (checked on
    // xy double areas; the second triangle's winding is flipped)
    let t = Triangle {
        v0: vert(v4(0, 0, -FX_ONE, FX_ONE)),
        v1: vert(v4(2 * FX_ONE, 0, FX_ONE, FX_ONE)),
        v2: vert(v4(0, 2 * FX_ONE, FX_ONE, FX_ONE)),
    };
    let (a, b) = clip_triangle_two(&t);
    let area2 = |p: &Vertex, q: &Vertex, r: &Vertex| -> i128 {
        let (px, py) = (p.pos.x as i128, p.pos.y as i128);
        let (qx, qy) = (q.pos.x as i128, q.pos.y as i128);
        let (rx, ry) = (r.pos.x as i128, r.pos.y as i128);
        (qx - px) * (ry - py) - (qy - py) * (rx - px)
    };
    let shoelace4 = |p: &Vertex, q: &Vertex, r: &Vertex, s: &Vertex| -> i128 {
        let (px, py) = (p.pos.x as i128, p.pos.y as i128);
        let (qx, qy) = (q.pos.x as i128, q.pos.y as i128);
        let (rx, ry) = (r.pos.x as i128, r.pos.y as i128);
        let (sx, sy) = (s.pos.x as i128, s.pos.y as i128);
        (px * qy - qx * py) + (qx * ry - rx * qy) + (rx * sy - sx * ry) + (sx * py - px * sy)
    };
    assert_eq!(
        area2(&a.v0, &a.v1, &a.v2) + area2(&b.v0, &b.v2, &b.v1),
        shoelace4(&a.v0, &a.v1, &a.v2, &b.v1)
    );
}

#[test]
fn clip_one_moves_both_vertices_onto_plane() {
    let t = Triangle {
        v0: vert(v4(0, 0, -FX_ONE, FX_ONE)),
        v1: vert(v4(2 * FX_ONE, 0, -3 * FX_ONE, FX_ONE)),
        v2: vert(v4(0, 2 * FX_ONE, FX_ONE, FX_ONE)),
    };
    let c = clip_triangle_one(&t);
    assert_eq!(c.v0.pos.z, 0);
    assert_eq!(c.v1.pos.z, 0);
    assert_eq!(c.v2, t.v2);
}

#[test]
fn backface_test_reads_normal_z() {
    let facing = Triangle {
        v0: vert(v4(0, 0, 0, 0)),
        v1: vert(v4(FX_ONE, 0, 0, 0)),
        v2: vert(v4(0, FX_ONE, 0, 0)),
    };
    let away = Triangle { v0: facing.v0, v1: facing.v2, v2: facing.v1 };
    assert_ne!(cull_triangle_backface(&facing), cull_triangle_backface(&away));
}

#[test]
fn screen_bounding_box_clips_to_viewport() {
    let bb = triangle_screen_bounding_box(
        v2(-5 * FX_ONE, 2 * FX_ONE),
        v2(3 * FX_ONE, -FX_ONE),
        v2(9 * FX_ONE, 5 * FX_ONE),
        8,
        4,
    )
    .unwrap();
    assert_eq!(bb.left, 0);
    assert_eq!(bb.right, 8 * FX_ONE - 1);
    assert_eq!(bb.top, 0);
    assert_eq!(bb.bottom, 4 * FX_ONE - 1);
    // fully off the left side: empty intersection
    assert!(triangle_screen_bounding_box(
        v2(-9 * FX_ONE, 0),
        v2(-5 * FX_ONE, FX_ONE),
        v2(-7 * FX_ONE, 2 * FX_ONE),
        8,
        4,
    )
    .is_none());
    // a box at or past the right edge is empty; one that only reaches
    // into the last pixel column is not
    assert!(triangle_screen_bounding_box(
        v2(8 * FX_ONE, 0),
        v2(9 * FX_ONE, FX_ONE),
        v2(8 * FX_ONE, 2 * FX_ONE),
        8,
        4,
    )
    .is_none());
    let last = triangle_screen_bounding_box(
        v2(FX_ONE + 1, 0),
        v2(120000, 10000),
        v2(90000, 120000),
        2,
        2,
    )
    .unwrap();
    assert_eq!(last.left, FX_ONE + 1);
    assert_eq!(last.right, 120000);
}

#[test]
fn raster_2d_paints_last_pixel_column() {
    // a sliver inside the last pixel column of a 4-wide viewport covers
    // the center x = 3.5 and must be shaded, not skipped as empty
    let mk = |x: i64, y: i64| Vertex {
        pos: v4(x, y, FX_HALF, FX_ONE),
        normal: v3(0, 0, FX_ONE),
        color: v3(FX_ONE, FX_ONE, FX_ONE),
        uv: v2(0, 0),
    };
    let t = Triangle {
        v0: mk(209715, 0),  // (3.2, 0.0) px
        v1: mk(255590, 0),  // (3.9, 0.0) px
        v2: mk(229376, 4 * FX_ONE),  // (3.5, 4.0) px
    };
    let mut buffer = vec![0u32; 4 * 4];
    let mut z_buffer = vec![i64::MAX; 4 * 4];
    raster_triangle_2d(&t, None, &mut buffer, &mut z_buffer, 4, 4);
    assert_eq!(buffer[3], from_u8_rgb(255, 255, 255));
}

/// A 2x2 checkerboard with full alpha and nonzero red everywhere.
fn checkerboard() -> Texture {
    Texture {
        width: 2,
        height: 2,
        data: vec![
            to_argb8(255, 255, 255, 255),
            to_argb8(255, 128, 128, 128),
            to_argb8(255, 128, 128, 128),
            to_argb8(255, 255, 255, 255),
        ],
        depth: 4,
    }
}

#[test]
fn end_to_end_unit_triangle_paints_coverage_exactly() {
    // a screen-space triangle at (100,100), (200,100), (150,200), solid
    // red, textured with a 2x2 checkerboard, into a 300x300 black buffer
    let red = v3(FX_ONE, 0, 0);
    let mk = |x: i64, y: i64| Vertex {
        pos: v4(x * FX_ONE, y * FX_ONE, FX_HALF, FX_ONE),
        normal: v3(0, 0, FX_ONE),
        color: red,
        uv: v2(0, 0),
    };
    let mut t = Triangle { v0: mk(100, 100), v1: mk(200, 100), v2: mk(150, 200) };
    t.v1.uv = v2(FX_ONE, 0);
    t.v2.uv = v2(0, FX_ONE);
    let tex = checkerboard();
    let mut buffer = vec![0u32; 300 * 300];
    let mut z_buffer = vec![i64::MAX; 300 * 300];
    raster_triangle_2d(&t, Some(&tex), &mut buffer, &mut z_buffer, 300, 300);

    let area = edge_function(
        v2(200 * FX_ONE, 100 * FX_ONE),
        v2(150 * FX_ONE, 200 * FX_ONE),
        v2(100 * FX_ONE, 100 * FX_ONE),
    );
    let mut painted = 0usize;
    for y in 0..300usize {
        for x in 0..300usize {
            let center = v2(x as i64 * FX_ONE + FX_HALF, y as i64 * FX_ONE + FX_HALF);
            let covered = barycentric_coords(
                center,
                v2(100 * FX_ONE, 100 * FX_ONE),
                v2(200 * FX_ONE, 100 * FX_ONE),
                v2(150 * FX_ONE, 200 * FX_ONE),
                area,
            )
            .is_some();
            let pixel = buffer[x + y * 300];
            assert_eq!(pixel != 0, covered, "pixel ({}, {})", x, y);
            if covered {
                painted += 1;
            }
        }
    }
    // the triangle has about 100 * 100 / 2 pixels of coverage
    assert!(painted > 4000 && painted < 6000);
}

#[test]
fn depth_test_makes_second_pass_a_no_op() {
    // rasterizing the same triangle twice leaves both buffers unchanged
    let t = Triangle {
        v0: vert(v4(-FX_ONE, -FX_ONE, FX_HALF, FX_ONE)),
        v1: vert(v4(FX_ONE, -FX_ONE, FX_HALF, FX_ONE)),
        v2: vert(v4(-FX_ONE, FX_ONE, FX_HALF, FX_ONE)),
    };
    let light = Lighting::standard();
    let mut buffer = vec![0u32; 16 * 16];
    let mut z_buffer = vec![i64::MAX; 16 * 16];
    raster_clipped_triangle(&t, None, &light, &mut buffer, &mut z_buffer, 16, 16);
    let first_colors = buffer.clone();
    let first_depths = z_buffer.clone();
    assert!(first_colors.iter().any(|c| *c != 0));
    raster_clipped_triangle(&t, None, &light, &mut buffer, &mut z_buffer, 16, 16);
    assert_eq!(buffer, first_colors);
    assert_eq!(z_buffer, first_depths);
}

#[test]
fn lit_shading_with_zero_normal_is_pure_ambient() {
    // with a zero normal the Lambertian term vanishes and every covered
    // pixel shows exactly the ambient gray: 255 * 19661 / 65536 = 76
    let t = Triangle {
        v0: vert(v4(-FX_ONE, -FX_ONE, FX_HALF, FX_ONE)),
        v1: vert(v4(FX_ONE, -FX_ONE, FX_HALF, FX_ONE)),
        v2: vert(v4(-FX_ONE, FX_ONE, FX_HALF, FX_ONE)),
    };
    let light = Lighting::standard();
    let mut buffer = vec![0u32; 8 * 8];
    let mut z_buffer = vec![i64::MAX; 8 * 8];
    raster_clipped_triangle(&t, None, &light, &mut buffer, &mut z_buffer, 8, 8);
    let expected = from_u8_rgb(76, 76, 76);
    let painted = buffer.iter().filter(|c| **c != 0).count();
    assert!(painted > 0);
    for c in buffer.iter() {
        assert!(*c == 0 || *c == expected);
    }
    for z in z_buffer.iter() {
        assert!(*z == i64::MAX || *z < i64::MAX);
    }
}

#[test]
fn lit_textured_shading_scales_each_channel() {
    // a 1x1 texel (255, 128, 0) under pure ambient light: each channel
    // is scaled by 19661/65536, giving (76, 38, 0)
    let tex = Texture {
        width: 1,
        height: 1,
        data: vec![from_u8_rgb(255, 128, 0)],
        depth: 3,
    };
    let t = Triangle {
        v0: vert(v4(-FX_ONE, -FX_ONE, FX_HALF, FX_ONE)),
        v1: vert(v4(FX_ONE, -FX_ONE, FX_HALF, FX_ONE)),
        v2: vert(v4(-FX_ONE, FX_ONE, FX_HALF, FX_ONE)),
    };
    let light = Lighting::standard();
    let mut buffer = vec![0u32; 8 * 8];
    let mut z_buffer = vec![i64::MAX; 8 * 8];
    raster_clipped_triangle(&t, Some(&tex), &light, &mut buffer, &mut z_buffer, 8, 8);
    let expected = from_u8_rgb(76, 38, 0);
    assert!(buffer.iter().any(|c| *c == expected));
    assert!(buffer.iter().all(|c| *c == 0 || *c == expected));
}

#[test]
fn raster_triangle_culls_behind_camera() {
    // a triangle entirely behind the near plane leaves the buffers alone
    let t = (
        vert(v4(0, 0, -FX_ONE, FX_ONE)),
        vert(v4(FX_ONE, 0, -FX_ONE, FX_ONE)),
        vert(v4(0, FX_ONE, -FX_ONE, FX_ONE)),
    );
    let light = Lighting::standard();
    let mut buffer = vec![0u32; 8 * 8];
    let mut z_buffer = vec![i64::MAX; 8 * 8];
    raster_triangle(
        &t,
        &identity(),
        &identity(),
        None,
        &light,
        &mut buffer,
        &mut z_buffer,
        8,
        8,
    );
    assert!(buffer.iter().all(|c| *c == 0));
    assert!(z_buffer.iter().all(|z| *z == i64::MAX));
}

#[test]
fn raster_mesh_matches_single_triangle() {
    // driving one triangle through the mesh loop equals calling the
    // per-triangle entry point directly
    let mut mesh = Mesh::new();
    let positions = vec![
        v3(-FX_ONE, -FX_ONE, FX_HALF),
        v3(FX_ONE, -FX_ONE, FX_HALF),
        v3(-FX_ONE, FX_ONE, FX_HALF),
    ];
    let normals = vec![v3(0, 0, 0); 3];
    let colors = vec![v3(FX_ONE, FX_ONE, FX_ONE); 3];
    let uvs: Vec<Vec2Fx> = Vec::new();
    let triangles = vec![UVec3 { x: 0, y: 1, z: 2 }];
    mesh.add_section_from_buffers(&triangles, &positions, &normals, &colors, &uvs);

    let light = Lighting::standard();
    let mut buffer_a = vec![0u32; 8 * 8];
    let mut z_a = vec![i64::MAX; 8 * 8];
    raster_mesh(
        &mesh,
        &identity(),
        &identity(),
        None,
        &light,
        &mut buffer_a,
        &mut z_a,
        8,
        8,
    );

    let (a, b, c) = mesh.get_vertices_from_triangle_indices(triangles[0]);
    let mut buffer_b = vec![0u32; 8 * 8];
    let mut z_b = vec![i64::MAX; 8 * 8];
    raster_triangle(
        &(a, b, c),
        &identity(),
        &identity(),
        None,
        &light,
        &mut buffer_b,
        &mut z_b,
        8,
        8,
    );
    assert_eq!(buffer_a, buffer_b);
    assert_eq!(z_a, z_b);
}

#[test]
fn raster_mesh_2d_paints_quad() {
    // two screen-space triangles forming a quad, untextured
    let mut mesh = Mesh::new();
    let positions = vec![
        v3(1 * FX_ONE, 1 * FX_ONE, FX_HALF),
        v3(6 * FX_ONE, 1 * FX_ONE, FX_HALF),
        v3(1 * FX_ONE, 6 * FX_ONE, FX_HALF),
        v3(6 * FX_ONE, 6 * FX_ONE, FX_HALF),
    ];
    let normals = vec![v3(0, 0, FX_ONE); 4];
    let colors = vec![v3(FX_ONE, FX_ONE, FX_ONE); 4];
    let uvs: Vec<Vec2Fx> = Vec::new();
    let triangles = vec![UVec3 { x: 0, y: 1, z: 2 }, UVec3 { x: 2, y: 1, z: 3 }];
    mesh.add_section_from_buffers(&triangles, &positions, &normals, &colors, &uvs);
    let mut buffer = vec![0u32; 8 * 8];
    let mut z_buffer = vec![i64::MAX; 8 * 8];
    raster_mesh_2d(&mesh, None, &mut buffer, &mut z_buffer, 8, 8);
    // an interior pixel is painted plain white (255 * 1.0 per channel)
    assert_eq!(buffer[3 + 3 * 8], from_u8_rgb(255, 255, 255));
    // a pixel outside the quad stays black
    assert_eq!(buffer[0], 0);
}

#[test]
fn raster_2d_alpha_zero_keeps_color_but_writes_depth() {
    // a fully transparent texel never writes color, but still occludes
    let tex = Texture {
        width: 1,
        height: 1,
        data: vec![to_argb8(0, 255, 255, 255)],
        depth: 4,
    };
    let mk = |x: i64, y: i64| Vertex {
        pos: v4(x * FX_ONE, y * FX_ONE, FX_HALF, FX_ONE),
        normal: v3(0, 0, FX_ONE),
        color: v3(FX_ONE, FX_ONE, FX_ONE),
        uv: v2(0, 0),
    };
    let t = Triangle { v0: mk(0, 0), v1: mk(8, 0), v2: mk(0, 8) };
    let mut buffer = vec![0u32; 8 * 8];
    let mut z_buffer = vec![i64::MAX; 8 * 8];
    raster_triangle_2d(&t, Some(&tex), &mut buffer, &mut z_buffer, 8, 8);
    assert!(buffer.iter().all(|c| *c == 0));
    assert!(z_buffer.iter().any(|z| *z < i64::MAX));
}

#[test]
fn raster_skips_vertex_without_perspective_divisor() {
    // a vertex with w == 0 cannot be perspective-divided: the whole
    // triangle is skipped and the buffers stay untouched
    let t = Triangle {
        v0: vert(v4(-FX_ONE, -FX_ONE, FX_HALF, 0)),
        v1: vert(v4(FX_ONE, -FX_ONE, FX_HALF, FX_ONE)),
        v2: vert(v4(-FX_ONE, FX_ONE, FX_HALF, FX_ONE)),
    };
    let light = Lighting::standard();
    let mut buffer = vec![7u32; 4 * 4];
    let mut z_buffer = vec![i64::MAX; 4 * 4];
    raster_clipped_triangle(&t, None, &light, &mut buffer, &mut z_buffer, 4, 4);
    assert!(buffer.iter().all(|c| *c == 7));
    assert!(z_buffer.iter().all(|z| *z == i64::MAX));
}

#[test]
fn raster_2d_skips_unaddressable_coordinates() {
    // screen coordinates beyond the fixed-point screen range are
    // rejected whole rather than scan-converted with overflowing math
    let huge = 0x4000_0000_0000_0000;
    let t = Triangle {
        v0: vert(v4(huge, 0, FX_HALF, FX_ONE)),
        v1: vert(v4(0, FX_ONE, FX_HALF, FX_ONE)),
        v2: vert(v4(FX_ONE, 0, FX_HALF, FX_ONE)),
    };
    let mut buffer = vec![7u32; 4 * 4];
    let mut z_buffer = vec![i64::MAX; 4 * 4];
    raster_triangle_2d(&t, None, &mut buffer, &mut z_buffer, 4, 4);
    assert!(buffer.iter().all(|c| *c == 7));
    assert!(z_buffer.iter().all(|z| *z == i64::MAX));
}
