//! Fixed-point vector and matrix types.
//!
//! Componentwise arithmetic over the saturating 16.16 scalars of
//! [`crate::fixed`]. The 4x4 matrix is stored by columns, and
//! `mul_vec4` is the usual column-weighted sum.

use vstd::prelude::*;
use crate::fixed::{fx_add, fx_mul, fx_sub, spec_add, spec_mul, spec_sub};

verus! {

#[derive(Clone, Copy, PartialEq, Eq, Structural, Debug)]
pub struct Vec2Fx {
    pub x: i64,
    pub y: i64,
}

#[derive(Clone, Copy, PartialEq, Eq, Structural, Debug)]
pub struct Vec3Fx {
    pub x: i64,
    pub y: i64,
    pub z: i64,
}

#[derive(Clone, Copy, PartialEq, Eq, Structural, Debug)]
pub struct Vec4Fx {
    pub x: i64,
    pub y: i64,
    pub z: i64,
    pub w: i64,
}

pub open spec fn spec_vec2_add(a: Vec2Fx, b: Vec2Fx) -> Vec2Fx {
    Vec2Fx { x: spec_add(a.x as int, b.x as int) as i64, y: spec_add(a.y as int, b.y as int) as i64 }
}

pub open spec fn spec_vec2_sub(a: Vec2Fx, b: Vec2Fx) -> Vec2Fx {
    Vec2Fx { x: spec_sub(a.x as int, b.x as int) as i64, y: spec_sub(a.y as int, b.y as int) as i64 }
}

pub open spec fn spec_vec2_mul(a: Vec2Fx, b: Vec2Fx) -> Vec2Fx {
    Vec2Fx { x: spec_mul(a.x as int, b.x as int) as i64, y: spec_mul(a.y as int, b.y as int) as i64 }
}

pub open spec fn spec_vec2_scale(a: Vec2Fx, s: int) -> Vec2Fx {
    Vec2Fx { x: spec_mul(a.x as int, s) as i64, y: spec_mul(a.y as int, s) as i64 }
}

impl Vec2Fx {
    pub fn new(x: i64, y: i64) -> (r: Vec2Fx)
        ensures
            r == (Vec2Fx { x, y }),
    {
        Vec2Fx { x, y }
    }

    pub fn add(self, o: Vec2Fx) -> (r: Vec2Fx)
        ensures
            r == spec_vec2_add(self, o),
    {
        Vec2Fx { x: fx_add(self.x, o.x), y: fx_add(self.y, o.y) }
    }

    pub fn sub(self, o: Vec2Fx) -> (r: Vec2Fx)
        ensures
            r == spec_vec2_sub(self, o),
    {
        Vec2Fx { x: fx_sub(self.x, o.x), y: fx_sub(self.y, o.y) }
    }

    pub fn mul(self, o: Vec2Fx) -> (r: Vec2Fx)
        ensures
            r == spec_vec2_mul(self, o),
    {
        Vec2Fx { x: fx_mul(self.x, o.x), y: fx_mul(self.y, o.y) }
    }

    pub fn scale(self, s: i64) -> (r: Vec2Fx)
        ensures
            r == spec_vec2_scale(self, s as int),
    {
        Vec2Fx { x: fx_mul(self.x, s), y: fx_mul(self.y, s) }
    }
}

pub open spec fn spec_vec3_add(a: Vec3Fx, b: Vec3Fx) -> Vec3Fx {
    Vec3Fx {
        x: spec_add(a.x as int, b.x as int) as i64,
        y: spec_add(a.y as int, b.y as int) as i64,
        z: spec_add(a.z as int, b.z as int) as i64,
    }
}

pub open spec fn spec_vec3_sub(a: Vec3Fx, b: Vec3Fx) -> Vec3Fx {
    Vec3Fx {
        x: spec_sub(a.x as int, b.x as int) as i64,
        y: spec_sub(a.y as int, b.y as int) as i64,
        z: spec_sub(a.z as int, b.z as int) as i64,
    }
}

pub open spec fn spec_vec3_mul(a: Vec3Fx, b: Vec3Fx) -> Vec3Fx {
    Vec3Fx {
        x: spec_mul(a.x as int, b.x as int) as i64,
        y: spec_mul(a.y as int, b.y as int) as i64,
        z: spec_mul(a.z as int, b.z as int) as i64,
    }
}

pub open spec fn spec_vec3_scale(a: Vec3Fx, s: int) -> Vec3Fx {
    Vec3Fx {
        x: spec_mul(a.x as int, s) as i64,
        y: spec_mul(a.y as int, s) as i64,
        z: spec_mul(a.z as int, s) as i64,
    }
}

/// Saturated fixed-point dot product.
pub open spec fn spec_vec3_dot(a: Vec3Fx, b: Vec3Fx) -> int {
    spec_add(
        spec_add(spec_mul(a.x as int, b.x as int), spec_mul(a.y as int, b.y as int)),
        spec_mul(a.z as int, b.z as int),
    )
}

/// Saturated fixed-point cross product.
pub open spec fn spec_vec3_cross(a: Vec3Fx, b: Vec3Fx) -> Vec3Fx {
    Vec3Fx {
        x: spec_sub(spec_mul(a.y as int, b.z as int), spec_mul(a.z as int, b.y as int)) as i64,
        y: spec_sub(spec_mul(a.z as int, b.x as int), spec_mul(a.x as int, b.z as int)) as i64,
        z: spec_sub(spec_mul(a.x as int, b.y as int), spec_mul(a.y as int, b.x as int)) as i64,
    }
}

impl Vec3Fx {
    pub fn new(x: i64, y: i64, z: i64) -> (r: Vec3Fx)
        ensures
            r == (Vec3Fx { x, y, z }),
    {
        Vec3Fx { x, y, z }
    }

    pub fn add(self, o: Vec3Fx) -> (r: Vec3Fx)
        ensures
            r == spec_vec3_add(self, o),
    {
        Vec3Fx { x: fx_add(self.x, o.x), y: fx_add(self.y, o.y), z: fx_add(self.z, o.z) }
    }

    pub fn sub(self, o: Vec3Fx) -> (r: Vec3Fx)
        ensures
            r == spec_vec3_sub(self, o),
    {
        Vec3Fx { x: fx_sub(self.x, o.x), y: fx_sub(self.y, o.y), z: fx_sub(self.z, o.z) }
    }

    pub fn mul(self, o: Vec3Fx) -> (r: Vec3Fx)
        ensures
            r == spec_vec3_mul(self, o),
    {
        Vec3Fx { x: fx_mul(self.x, o.x), y: fx_mul(self.y, o.y), z: fx_mul(self.z, o.z) }
    }

    pub fn scale(self, s: i64) -> (r: Vec3Fx)
        ensures
            r == spec_vec3_scale(self, s as int),
    {
        Vec3Fx { x: fx_mul(self.x, s), y: fx_mul(self.y, s), z: fx_mul(self.z, s) }
    }

    pub fn dot(self, o: Vec3Fx) -> (r: i64)
        ensures
            r as int == spec_vec3_dot(self, o),
    {
        fx_add(fx_add(fx_mul(self.x, o.x), fx_mul(self.y, o.y)), fx_mul(self.z, o.z))
    }

    pub fn cross(self, o: Vec3Fx) -> (r: Vec3Fx)
        ensures
            r == spec_vec3_cross(self, o),
    {
        Vec3Fx {
            x: fx_sub(fx_mul(self.y, o.z), fx_mul(self.z, o.y)),
            y: fx_sub(fx_mul(self.z, o.x), fx_mul(self.x, o.z)),
            z: fx_sub(fx_mul(self.x, o.y), fx_mul(self.y, o.x)),
        }
    }
}

pub open spec fn spec_vec4_add(a: Vec4Fx, b: Vec4Fx) -> Vec4Fx {
    Vec4Fx {
        x: spec_add(a.x as int, b.x as int) as i64,
        y: spec_add(a.y as int, b.y as int) as i64,
        z: spec_add(a.z as int, b.z as int) as i64,
        w: spec_add(a.w as int, b.w as int) as i64,
    }
}

pub open spec fn spec_vec4_sub(a: Vec4Fx, b: Vec4Fx) -> Vec4Fx {
    Vec4Fx {
        x: spec_sub(a.x as int, b.x as int) as i64,
        y: spec_sub(a.y as int, b.y as int) as i64,
        z: spec_sub(a.z as int, b.z as int) as i64,
        w: spec_sub(a.w as int, b.w as int) as i64,
    }
}

pub open spec fn spec_vec4_mul(a: Vec4Fx, b: Vec4Fx) -> Vec4Fx {
    Vec4Fx {
        x: spec_mul(a.x as int, b.x as int) as i64,
        y: spec_mul(a.y as int, b.y as int) as i64,
        z: spec_mul(a.z as int, b.z as int) as i64,
        w: spec_mul(a.w as int, b.w as int) as i64,
    }
}

pub open spec fn spec_vec4_scale(a: Vec4Fx, s: int) -> Vec4Fx {
    Vec4Fx {
        x: spec_mul(a.x as int, s) as i64,
        y: spec_mul(a.y as int, s) as i64,
        z: spec_mul(a.z as int, s) as i64,
        w: spec_mul(a.w as int, s) as i64,
    }
}

impl Vec4Fx {
    pub fn new(x: i64, y: i64, z: i64, w: i64) -> (r: Vec4Fx)
        ensures
            r == (Vec4Fx { x, y, z, w }),
    {
        Vec4Fx { x, y, z, w }
    }

    pub fn add(self, o: Vec4Fx) -> (r: Vec4Fx)
        ensures
            r == spec_vec4_add(self, o),
    {
        Vec4Fx {
            x: fx_add(self.x, o.x),
            y: fx_add(self.y, o.y),
            z: fx_add(self.z, o.z),
            w: fx_add(self.w, o.w),
        }
    }

    pub fn sub(self, o: Vec4Fx) -> (r: Vec4Fx)
        ensures
            r == spec_vec4_sub(self, o),
    {
        Vec4Fx {
            x: fx_sub(self.x, o.x),
            y: fx_sub(self.y, o.y),
            z: fx_sub(self.z, o.z),
            w: fx_sub(self.w, o.w),
        }
    }

    pub fn mul(self, o: Vec4Fx) -> (r: Vec4Fx)
        ensures
            r == spec_vec4_mul(self, o),
    {
        Vec4Fx {
            x: fx_mul(self.x, o.x),
            y: fx_mul(self.y, o.y),
            z: fx_mul(self.z, o.z),
            w: fx_mul(self.w, o.w),
        }
    }

    pub fn scale(self, s: i64) -> (r: Vec4Fx)
        ensures
            r == spec_vec4_scale(self, s as int),
    {
        Vec4Fx {
            x: fx_mul(self.x, s),
            y: fx_mul(self.y, s),
            z: fx_mul(self.z, s),
            w: fx_mul(self.w, s),
        }
    }

    /// Drop the homogeneous coordinate.
    pub fn xyz(self) -> (r: Vec3Fx)
        ensures
            r == (Vec3Fx { x: self.x, y: self.y, z: self.z }),
    {
        Vec3Fx { x: self.x, y: self.y, z: self.z }
    }

    /// The screen-plane projection of the position.
    pub fn xy(self) -> (r: Vec2Fx)
        ensures
            r == (Vec2Fx { x: self.x, y: self.y }),
    {
        Vec2Fx { x: self.x, y: self.y }
    }
}

/// A 4x4 matrix stored by columns.
#[derive(Clone, Copy, PartialEq, Eq, Structural, Debug)]
pub struct Mat4Fx {
    pub x_axis: Vec4Fx,
    pub y_axis: Vec4Fx,
    pub z_axis: Vec4Fx,
    pub w_axis: Vec4Fx,
}

/// The column-weighted sum `x_axis*v.x + y_axis*v.y + z_axis*v.z + w_axis*v.w`.
pub open spec fn spec_mat4_mul_vec4(m: Mat4Fx, v: Vec4Fx) -> Vec4Fx {
    spec_vec4_add(
        spec_vec4_add(spec_vec4_scale(m.x_axis, v.x as int), spec_vec4_scale(m.y_axis, v.y as int)),
        spec_vec4_add(spec_vec4_scale(m.z_axis, v.z as int), spec_vec4_scale(m.w_axis, v.w as int)),
    )
}

impl Mat4Fx {
    pub fn new(x_axis: Vec4Fx, y_axis: Vec4Fx, z_axis: Vec4Fx, w_axis: Vec4Fx) -> (r: Mat4Fx)
        ensures
            r == (Mat4Fx { x_axis, y_axis, z_axis, w_axis }),
    {
        Mat4Fx { x_axis, y_axis, z_axis, w_axis }
    }

    pub fn mul_vec4(&self, v: Vec4Fx) -> (r: Vec4Fx)
        ensures
            r == spec_mat4_mul_vec4(*self, v),
    {
        let a = self.x_axis.scale(v.x).add(self.y_axis.scale(v.y));
        let b = self.z_axis.scale(v.z).add(self.w_axis.scale(v.w));
        a.add(b)
    }
}

} // verus!
