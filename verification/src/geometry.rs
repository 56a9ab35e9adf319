//! Geometry model: vertices carrying shading attributes, triangles,
//! indexed meshes and screen-space bounding boxes.

use vstd::prelude::*;
use crate::fixed::FX_ONE;
use crate::vectors::{
    spec_mat4_mul_vec4, spec_vec2_add, spec_vec2_mul, spec_vec2_scale, spec_vec2_sub,
    spec_vec3_add, spec_vec3_mul, spec_vec3_scale, spec_vec3_sub, spec_vec4_add, spec_vec4_mul,
    spec_vec4_scale, spec_vec4_sub, Mat4Fx, Vec2Fx, Vec3Fx, Vec4Fx,
};

verus! {

/// A vertex: a homogeneous position plus the attributes that are
/// interpolated with it as one algebraic unit.
#[derive(Clone, Copy, PartialEq, Eq, Structural, Debug)]
pub struct Vertex {
    pub pos: Vec4Fx,
    pub normal: Vec3Fx,
    pub color: Vec3Fx,
    pub uv: Vec2Fx,
}

pub open spec fn spec_vertex_add(a: Vertex, b: Vertex) -> Vertex {
    Vertex {
        pos: spec_vec4_add(a.pos, b.pos),
        normal: spec_vec3_add(a.normal, b.normal),
        color: spec_vec3_add(a.color, b.color),
        uv: spec_vec2_add(a.uv, b.uv),
    }
}

pub open spec fn spec_vertex_sub(a: Vertex, b: Vertex) -> Vertex {
    Vertex {
        pos: spec_vec4_sub(a.pos, b.pos),
        normal: spec_vec3_sub(a.normal, b.normal),
        color: spec_vec3_sub(a.color, b.color),
        uv: spec_vec2_sub(a.uv, b.uv),
    }
}

pub open spec fn spec_vertex_mul(a: Vertex, b: Vertex) -> Vertex {
    Vertex {
        pos: spec_vec4_mul(a.pos, b.pos),
        normal: spec_vec3_mul(a.normal, b.normal),
        color: spec_vec3_mul(a.color, b.color),
        uv: spec_vec2_mul(a.uv, b.uv),
    }
}

pub open spec fn spec_vertex_scale(a: Vertex, s: int) -> Vertex {
    Vertex {
        pos: spec_vec4_scale(a.pos, s),
        normal: spec_vec3_scale(a.normal, s),
        color: spec_vec3_scale(a.color, s),
        uv: spec_vec2_scale(a.uv, s),
    }
}

/// Componentwise affine interpolation of every vertex attribute.
pub open spec fn spec_vertex_lerp(a: Vertex, b: Vertex, alpha: int) -> Vertex {
    spec_vertex_add(a, spec_vertex_scale(spec_vertex_sub(b, a), alpha))
}

impl Vertex {
    pub fn new(pos: Vec4Fx, normal: Vec3Fx, color: Vec3Fx, uv: Vec2Fx) -> (r: Vertex)
        ensures
            r == (Vertex { pos, normal, color, uv }),
    {
        Vertex { pos, normal, color, uv }
    }

    /// Componentwise sum of positions and attributes.
    pub fn add(self, o: Vertex) -> (r: Vertex)
        ensures
            r == spec_vertex_add(self, o),
    {
        Vertex {
            pos: self.pos.add(o.pos),
            normal: self.normal.add(o.normal),
            color: self.color.add(o.color),
            uv: self.uv.add(o.uv),
        }
    }

    /// Componentwise difference of positions and attributes.
    pub fn sub(self, o: Vertex) -> (r: Vertex)
        ensures
            r == spec_vertex_sub(self, o),
    {
        Vertex {
            pos: self.pos.sub(o.pos),
            normal: self.normal.sub(o.normal),
            color: self.color.sub(o.color),
            uv: self.uv.sub(o.uv),
        }
    }

    /// Componentwise product of positions and attributes.
    pub fn mul(self, o: Vertex) -> (r: Vertex)
        ensures
            r == spec_vertex_mul(self, o),
    {
        Vertex {
            pos: self.pos.mul(o.pos),
            normal: self.normal.mul(o.normal),
            color: self.color.mul(o.color),
            uv: self.uv.mul(o.uv),
        }
    }

    /// Every component scaled by one fixed-point factor.
    pub fn scale(self, s: i64) -> (r: Vertex)
        ensures
            r == spec_vertex_scale(self, s as int),
    {
        Vertex {
            pos: self.pos.scale(s),
            normal: self.normal.scale(s),
            color: self.color.scale(s),
            uv: self.uv.scale(s),
        }
    }

    /// Interpolate the whole vertex toward `end` by `alpha`; clipping uses
    /// this to slide a vertex onto the near plane.
    pub fn lerp(self, end: Vertex, alpha: i64) -> (r: Vertex)
        ensures
            r == spec_vertex_lerp(self, end, alpha as int),
    {
        self.add(end.sub(self).scale(alpha))
    }
}

/// An ordered vertex triple; the winding order matters for culling and
/// for which clipping permutation applies.
#[derive(Clone, Copy, PartialEq, Eq, Structural, Debug)]
pub struct Triangle {
    pub v0: Vertex,
    pub v1: Vertex,
    pub v2: Vertex,
}

/// The six permutations a triangle's vertices can be read in.
#[derive(Clone, Copy, PartialEq, Eq, Structural, Debug)]
pub enum VerticesOrder {
    ABC,
    ACB,
    BAC,
    BCA,
    CAB,
    CBA,
}

/// A triangle's position run through a matrix: each position is read as
/// `(x, y, z, 1)` and multiplied; attributes and normals are untouched
/// (a correct normal transform is the caller's business).
pub open spec fn spec_transform(t: Triangle, m: Mat4Fx) -> Triangle {
    Triangle {
        v0: Vertex {
            pos: spec_mat4_mul_vec4(
                m,
                Vec4Fx { x: t.v0.pos.x, y: t.v0.pos.y, z: t.v0.pos.z, w: FX_ONE },
            ),
            ..t.v0
        },
        v1: Vertex {
            pos: spec_mat4_mul_vec4(
                m,
                Vec4Fx { x: t.v1.pos.x, y: t.v1.pos.y, z: t.v1.pos.z, w: FX_ONE },
            ),
            ..t.v1
        },
        v2: Vertex {
            pos: spec_mat4_mul_vec4(
                m,
                Vec4Fx { x: t.v2.pos.x, y: t.v2.pos.y, z: t.v2.pos.z, w: FX_ONE },
            ),
            ..t.v2
        },
    }
}

/// The vertex permutation named by `order`.
pub open spec fn spec_reorder(t: Triangle, order: VerticesOrder) -> Triangle {
    match order {
        VerticesOrder::ABC => t,
        VerticesOrder::ACB => Triangle { v0: t.v0, v1: t.v2, v2: t.v1 },
        VerticesOrder::BAC => Triangle { v0: t.v1, v1: t.v0, v2: t.v2 },
        VerticesOrder::BCA => Triangle { v0: t.v1, v1: t.v2, v2: t.v0 },
        VerticesOrder::CAB => Triangle { v0: t.v2, v1: t.v0, v2: t.v1 },
        VerticesOrder::CBA => Triangle { v0: t.v2, v1: t.v1, v2: t.v0 },
    }
}

impl Triangle {
    pub fn new(v0: Vertex, v1: Vertex, v2: Vertex) -> (r: Triangle)
        ensures
            r == (Triangle { v0, v1, v2 }),
    {
        Triangle { v0, v1, v2 }
    }

    /// Apply a 4x4 matrix to each vertex position, read as `(x, y, z, 1)`.
    pub fn transform(&self, matrix: &Mat4Fx) -> (r: Triangle)
        ensures
            r == spec_transform(*self, *matrix),
    {
        let p0 = matrix.mul_vec4(Vec4Fx {
            x: self.v0.pos.x,
            y: self.v0.pos.y,
            z: self.v0.pos.z,
            w: FX_ONE,
        });
        let p1 = matrix.mul_vec4(Vec4Fx {
            x: self.v1.pos.x,
            y: self.v1.pos.y,
            z: self.v1.pos.z,
            w: FX_ONE,
        });
        let p2 = matrix.mul_vec4(Vec4Fx {
            x: self.v2.pos.x,
            y: self.v2.pos.y,
            z: self.v2.pos.z,
            w: FX_ONE,
        });
        let mut result = *self;
        result.v0.pos = p0;
        result.v1.pos = p1;
        result.v2.pos = p2;
        result
    }

    /// Return the triangle with its vertices permuted per `order`.
    pub fn reorder(&self, order: VerticesOrder) -> (r: Triangle)
        ensures
            r == spec_reorder(*self, order),
    {
        match order {
            VerticesOrder::ABC => *self,
            VerticesOrder::ACB => Triangle { v0: self.v0, v1: self.v2, v2: self.v1 },
            VerticesOrder::BAC => Triangle { v0: self.v1, v1: self.v0, v2: self.v2 },
            VerticesOrder::BCA => Triangle { v0: self.v1, v1: self.v2, v2: self.v0 },
            VerticesOrder::CAB => Triangle { v0: self.v2, v1: self.v0, v2: self.v1 },
            VerticesOrder::CBA => Triangle { v0: self.v2, v1: self.v1, v2: self.v0 },
        }
    }
}

/// An unsigned index triple naming one triangle of a mesh.
#[derive(Clone, Copy, PartialEq, Eq, Structural, Debug)]
pub struct UVec3 {
    pub x: u32,
    pub y: u32,
    pub z: u32,
}

impl UVec3 {
    pub fn new(x: u32, y: u32, z: u32) -> (r: UVec3)
        ensures
            r == (UVec3 { x, y, z }),
    {
        UVec3 { x, y, z }
    }
}

/// An indexed triangle list sharing one vertex array.
pub struct Mesh {
    pub triangle_indices: Vec<UVec3>,
    pub vertices: Vec<Vertex>,
}

impl Mesh {
    /// Mesh invariant: every index triple stays inside the vertex array.
    pub open spec fn wf(&self) -> bool {
        forall|i: int|
            0 <= i < self.triangle_indices@.len() ==> {
                &&& #[trigger] self.triangle_indices@[i].x < self.vertices@.len()
                &&& self.triangle_indices@[i].y < self.vertices@.len()
                &&& self.triangle_indices@[i].z < self.vertices@.len()
            }
    }

    pub fn new() -> (r: Mesh)
        ensures
            r.triangle_indices@.len() == 0,
            r.vertices@.len() == 0,
            r.wf(),
    {
        Mesh { triangle_indices: Vec::new(), vertices: Vec::new() }
    }

    /// Append one section of geometry: index triples plus parallel
    /// attribute buffers. A missing color buffer defaults to white, a
    /// missing texture-coordinate buffer to zero; positions get `w = 1`.
    pub fn add_section_from_buffers(
        &mut self,
        triangles: &Vec<UVec3>,
        positions: &Vec<Vec3Fx>,
        normals: &Vec<Vec3Fx>,
        colors: &Vec<Vec3Fx>,
        uvs: &Vec<Vec2Fx>,
    )
        requires
            normals@.len() >= positions@.len(),
            colors@.len() == 0 || colors@.len() >= positions@.len(),
            uvs@.len() == 0 || uvs@.len() >= positions@.len(),
            forall|j: int|
                0 <= j < triangles@.len() ==> {
                    &&& #[trigger] triangles@[j].x
                        < old(self).vertices@.len() + positions@.len()
                    &&& triangles@[j].y < old(self).vertices@.len() + positions@.len()
                    &&& triangles@[j].z < old(self).vertices@.len() + positions@.len()
                },
        ensures
            final(self).triangle_indices@ == old(self).triangle_indices@ + triangles@,
            final(self).vertices@.len() == old(self).vertices@.len() + positions@.len(),
            forall|i: int|
                0 <= i < old(self).vertices@.len() ==> #[trigger] final(self).vertices@[i] == old(
                    self,
                ).vertices@[i],
            forall|i: int|
                0 <= i < positions@.len() ==> #[trigger] final(self).vertices@[old(
                    self,
                ).vertices@.len() + i] == (Vertex {
                    pos: Vec4Fx {
                        x: positions@[i].x,
                        y: positions@[i].y,
                        z: positions@[i].z,
                        w: FX_ONE,
                    },
                    normal: normals@[i],
                    color: if colors@.len() > 0 {
                        colors@[i]
                    } else {
                        Vec3Fx { x: FX_ONE, y: FX_ONE, z: FX_ONE }
                    },
                    uv: if uvs@.len() > 0 {
                        uvs@[i]
                    } else {
                        Vec2Fx { x: 0, y: 0 }
                    },
                }),
            old(self).wf() ==> final(self).wf(),
    {
        let ghost old_tris = self.triangle_indices@;
        let ghost old_verts = self.vertices@;
        let mut k: usize = 0;
        while k < triangles.len()
            invariant
                0 <= k <= triangles@.len(),
                self.triangle_indices@ == old_tris + triangles@.subrange(0, k as int),
                self.vertices@ == old_verts,
            decreases triangles@.len() - k,
        {
            self.triangle_indices.push(triangles[k]);
            proof {
                assert(triangles@.subrange(0, k + 1 as int) == triangles@.subrange(0, k as int)
                    + seq![triangles@[k as int]]);
            }
            k = k + 1;
        }
        proof {
            assert(triangles@.subrange(0, triangles@.len() as int) == triangles@);
        }

        let has_uvs = uvs.len() > 0;
        let has_colors = colors.len() > 0;

        let mut i: usize = 0;
        while i < positions.len()
            invariant
                0 <= i <= positions@.len(),
                self.triangle_indices@ == old_tris + triangles@,
                self.vertices@.len() == old_verts.len() + i,
                normals@.len() >= positions@.len(),
                has_colors <==> colors@.len() > 0,
                has_uvs <==> uvs@.len() > 0,
                colors@.len() == 0 || colors@.len() >= positions@.len(),
                uvs@.len() == 0 || uvs@.len() >= positions@.len(),
                forall|j: int| 0 <= j < old_verts.len() ==> #[trigger] self.vertices@[j]
                    == old_verts[j],
                forall|j: int|
                    0 <= j < i ==> #[trigger] self.vertices@[old_verts.len() + j] == (Vertex {
                        pos: Vec4Fx {
                            x: positions@[j].x,
                            y: positions@[j].y,
                            z: positions@[j].z,
                            w: FX_ONE,
                        },
                        normal: normals@[j],
                        color: if colors@.len() > 0 {
                            colors@[j]
                        } else {
                            Vec3Fx { x: FX_ONE, y: FX_ONE, z: FX_ONE }
                        },
                        uv: if uvs@.len() > 0 {
                            uvs@[j]
                        } else {
                            Vec2Fx { x: 0, y: 0 }
                        },
                    }),
            decreases positions@.len() - i,
        {
            let p = positions[i];
            let vertex = Vertex {
                pos: Vec4Fx { x: p.x, y: p.y, z: p.z, w: FX_ONE },
                normal: normals[i],
                color: if has_colors {
                    colors[i]
                } else {
                    Vec3Fx { x: FX_ONE, y: FX_ONE, z: FX_ONE }
                },
                uv: if has_uvs {
                    uvs[i]
                } else {
                    Vec2Fx { x: 0, y: 0 }
                },
            };
            self.vertices.push(vertex);
            i = i + 1;
        }
        proof {
            if old(self).wf() {
                assert forall|j: int| 0 <= j < self.triangle_indices@.len() implies {
                    &&& #[trigger] self.triangle_indices@[j].x < self.vertices@.len()
                    &&& self.triangle_indices@[j].y < self.vertices@.len()
                    &&& self.triangle_indices@[j].z < self.vertices@.len()
                } by {
                    if j < old_tris.len() {
                        assert(self.triangle_indices@[j] == old(self).triangle_indices@[j]);
                        assert(old(self).triangle_indices@[j].x < old(self).vertices@.len());
                    } else {
                        assert(self.triangle_indices@[j] == triangles@[j - old_tris.len()]);
                        assert(triangles@[j - old_tris.len()].x < old(self).vertices@.len()
                            + positions@.len());
                    }
                }
            }
        }
    }

    /// The three vertices one index triple names. Out-of-range indices
    /// are a mesh-invariant violation upstream, so they are ruled out.
    pub fn get_vertices_from_triangle_indices(&self, triangle_indices: UVec3) -> (r: (
        Vertex,
        Vertex,
        Vertex,
    ))
        requires
            triangle_indices.x < self.vertices@.len(),
            triangle_indices.y < self.vertices@.len(),
            triangle_indices.z < self.vertices@.len(),
        ensures
            r.0 == self.vertices@[triangle_indices.x as int],
            r.1 == self.vertices@[triangle_indices.y as int],
            r.2 == self.vertices@[triangle_indices.z as int],
    {
        (
            self.vertices[triangle_indices.x as usize],
            self.vertices[triangle_indices.y as usize],
            self.vertices[triangle_indices.z as usize],
        )
    }
}

/// Screen-space extents of one triangle, in fixed-point pixels.
#[derive(Clone, Copy, PartialEq, Eq, Structural, Debug)]
pub struct BoundingBox2D {
    pub left: i64,
    pub right: i64,
    pub top: i64,
    pub bottom: i64,
}

pub open spec fn spec_min2(a: int, b: int) -> int {
    if a <= b {
        a
    } else {
        b
    }
}

pub open spec fn spec_max2(a: int, b: int) -> int {
    if a >= b {
        a
    } else {
        b
    }
}

/// Smaller of two fixed-point values.
pub fn fx_min(a: i64, b: i64) -> (r: i64)
    ensures
        r as int == spec_min2(a as int, b as int),
{
    if a <= b {
        a
    } else {
        b
    }
}

/// Larger of two fixed-point values.
pub fn fx_max(a: i64, b: i64) -> (r: i64)
    ensures
        r as int == spec_max2(a as int, b as int),
{
    if a >= b {
        a
    } else {
        b
    }
}

/// The axis-aligned extents of three screen-space points.
pub open spec fn spec_bounding_box(p0: Vec2Fx, p1: Vec2Fx, p2: Vec2Fx) -> BoundingBox2D {
    BoundingBox2D {
        left: spec_min2(spec_min2(p0.x as int, p1.x as int), p2.x as int) as i64,
        right: spec_max2(spec_max2(p0.x as int, p1.x as int), p2.x as int) as i64,
        top: spec_min2(spec_min2(p0.y as int, p1.y as int), p2.y as int) as i64,
        bottom: spec_max2(spec_max2(p0.y as int, p1.y as int), p2.y as int) as i64,
    }
}

/// Bounding box of a screen-space triangle: the componentwise minima and
/// maxima of its three corners.
pub fn get_triangle_bounding_box_2d(p0: Vec2Fx, p1: Vec2Fx, p2: Vec2Fx) -> (r: BoundingBox2D)
    ensures
        r == spec_bounding_box(p0, p1, p2),
{
    BoundingBox2D {
        left: fx_min(fx_min(p0.x, p1.x), p2.x),
        right: fx_max(fx_max(p0.x, p1.x), p2.x),
        top: fx_min(fx_min(p0.y, p1.y), p2.y),
        bottom: fx_max(fx_max(p0.y, p1.y), p2.y),
    }
}

} // verus!
