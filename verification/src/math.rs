//! Scalar, vector and quaternion values for the transform graph.
//!
//! The engine stores every scalar as the raw bit pattern of an IEEE 754
//! single-precision number (`u32`), so that the data model stays within
//! plain values; the actual arithmetic is delegated to `glam` behind
//! trusted wrappers whose results are named by uninterpreted spec
//! functions.

use vstd::prelude::*;

verus! {

/// A three-component vector; each field is the bit pattern of an IEEE 754
/// single-precision number.
#[derive(Clone, Copy, Debug, PartialEq, Eq, Structural, Hash)]
pub struct Vec3 {
    pub x: u32,
    pub y: u32,
    pub z: u32,
}

impl Vec3 {
    pub fn new(x: u32, y: u32, z: u32) -> (r: Vec3)
        ensures
            r == (Vec3 { x, y, z }),
    {
        Vec3 { x, y, z }
    }
}

/// A rotation quaternion; each field is the bit pattern of an IEEE 754
/// single-precision number.
#[derive(Clone, Copy, Debug, PartialEq, Eq, Structural, Hash)]
pub struct Quat {
    pub x: u32,
    pub y: u32,
    pub z: u32,
    pub w: u32,
}

impl Quat {
    pub fn new(x: u32, y: u32, z: u32, w: u32) -> (r: Quat)
        ensures
            r == (Quat { x, y, z, w }),
    {
        Quat { x, y, z, w }
    }
}

/// Componentwise vector sum, as `glam` computes it.
pub uninterp spec fn vec3_sum(a: Vec3, b: Vec3) -> Vec3;

/// Quaternion product, as `glam` computes it.
pub uninterp spec fn quat_product(a: Quat, b: Quat) -> Quat;

/// Rotation of a vector by a quaternion, as `glam` computes it.
pub uninterp spec fn quat_rotation(q: Quat, v: Vec3) -> Vec3;

/// Relies on `glam::Vec3`'s componentwise `+`; the result depends on the
/// operands alone.
#[verifier::external_body]
pub fn vec3_add(a: Vec3, b: Vec3) -> (r: Vec3)
    ensures
        r == vec3_sum(a, b),
{
    let ga = glam::Vec3::from_array(bytemuck::cast([a.x, a.y, a.z]));
    let gb = glam::Vec3::from_array(bytemuck::cast([b.x, b.y, b.z]));
    let s: [u32; 3] = bytemuck::cast((ga + gb).to_array());
    Vec3 { x: s[0], y: s[1], z: s[2] }
}

/// Relies on `glam::Quat::mul_quat`; the result depends on the operands
/// alone.
#[verifier::external_body]
pub fn quat_mul(a: Quat, b: Quat) -> (r: Quat)
    ensures
        r == quat_product(a, b),
{
    let ga = glam::Quat::from_array(bytemuck::cast([a.x, a.y, a.z, a.w]));
    let gb = glam::Quat::from_array(bytemuck::cast([b.x, b.y, b.z, b.w]));
    let p: [u32; 4] = bytemuck::cast(ga.mul_quat(gb).to_array());
    Quat { x: p[0], y: p[1], z: p[2], w: p[3] }
}

/// Relies on `glam::Quat::mul_vec3`; the result depends on the operands
/// alone.
#[verifier::external_body]
pub fn quat_rotate(q: Quat, v: Vec3) -> (r: Vec3)
    ensures
        r == quat_rotation(q, v),
{
    let gq = glam::Quat::from_array(bytemuck::cast([q.x, q.y, q.z, q.w]));
    let gv = glam::Vec3::from_array(bytemuck::cast([v.x, v.y, v.z]));
    let s: [u32; 3] = bytemuck::cast(gq.mul_vec3(gv).to_array());
    Vec3 { x: s[0], y: s[1], z: s[2] }
}

/// A local or resolved transform: translation, rotation and scale.
#[derive(Clone, Copy, Debug, PartialEq, Eq, Structural, Hash)]
pub struct BasicTransform {
    pub translation: Vec3,
    pub rotation: Quat,
    pub scale: Vec3,
}

/// The hierarchy composition rule: `parent` is the resolved transform of
/// the parent node and `local` is the child's parent-relative transform.
/// Translation is the parent's rotation applied to the local translation,
/// offset by the parent's translation; rotation is the quaternion product;
/// scale is composed additively (a deliberate design choice of this
/// engine, preserved for compatibility).
pub open spec fn compose(parent: BasicTransform, local: BasicTransform) -> BasicTransform {
    BasicTransform {
        translation: vec3_sum(quat_rotation(parent.rotation, local.translation), parent.translation),
        rotation: quat_product(parent.rotation, local.rotation),
        scale: vec3_sum(parent.scale, local.scale),
    }
}

impl BasicTransform {
    pub fn new(translation: Vec3, rotation: Quat, scale: Vec3) -> (r: Self)
        ensures
            r == (BasicTransform { translation, rotation, scale }),
    {
        Self { translation, rotation, scale }
    }

    /// Composes `rhs` (a child-local transform) under `self` (a resolved
    /// parent transform), following the engine's composition rule.
    pub fn add(self, rhs: Self) -> (r: Self)
        ensures
            r == compose(self, rhs),
    {
        BasicTransform {
            translation: vec3_add(quat_rotate(self.rotation, rhs.translation), self.translation),
            rotation: quat_mul(self.rotation, rhs.rotation),
            scale: vec3_add(self.scale, rhs.scale),
        }
    }
}

} // verus!
