use vstd::prelude::*;

verus! {

/// A vector of three integers. Mesh positions, face normals and viewing
/// directions are all expressed with it.
#[derive(Clone, Copy, Debug, PartialEq, Eq, Structural)]
pub struct IVec3 {
    pub x: i32,
    pub y: i32,
    pub z: i32,
}

/// Whether `v` can be stored in a vector component.
pub open spec fn fits_i32(v: int) -> bool {
    i32::MIN <= v <= i32::MAX
}

/// The vector with the given components, each of which should fit `i32`.
pub open spec fn ivec3(x: int, y: int, z: int) -> IVec3 {
    IVec3 { x: x as i32, y: y as i32, z: z as i32 }
}

/// Scalar product of two vectors.
pub open spec fn dot(a: IVec3, b: IVec3) -> int {
    a.x * b.x + a.y * b.y + a.z * b.z
}

/// Vector product of two differences of positions, as a triple of integers.
pub open spec fn cross(a: (int, int, int), b: (int, int, int)) -> (int, int, int) {
    (a.1 * b.2 - a.2 * b.1, a.2 * b.0 - a.0 * b.2, a.0 * b.1 - a.1 * b.0)
}

/// The difference `p - q` of two positions.
pub open spec fn diff(p: IVec3, q: IVec3) -> (int, int, int) {
    (p.x - q.x, p.y - q.y, p.z - q.z)
}

/// The vector `v` stretched by the factor `k`.
pub open spec fn scaled(k: int, v: IVec3) -> (int, int, int) {
    (k * v.x, k * v.y, k * v.z)
}

impl IVec3 {
    pub fn new(x: i32, y: i32, z: i32) -> (v: IVec3)
        ensures
            v == ivec3(x as int, y as int, z as int),
    {
        IVec3 { x, y, z }
    }

    /// Scalar product with `other`, computed without overflow.
    pub fn dot(self, other: IVec3) -> (d: i128)
        ensures
            d == dot(self, other),
    {
        proof {
            lemma_product_bound(self.x as int, other.x as int);
            lemma_product_bound(self.y as int, other.y as int);
            lemma_product_bound(self.z as int, other.z as int);
        }
        let xx: i128 = (self.x as i128) * (other.x as i128);
        let yy: i128 = (self.y as i128) * (other.y as i128);
        let zz: i128 = (self.z as i128) * (other.z as i128);
        xx + yy + zz
    }
}

/// The product of two vector components stays within 63 bits.
proof fn lemma_product_bound(a: int, b: int)
    requires
        fits_i32(a),
        fits_i32(b),
    ensures
        -0x4000_0000_0000_0000 <= a * b <= 0x4000_0000_0000_0000,
{
    assert(-0x4000_0000_0000_0000 <= a * b <= 0x4000_0000_0000_0000) by (nonlinear_arith)
        requires
            -0x8000_0000 <= a <= 0x7fff_ffff,
            -0x8000_0000 <= b <= 0x7fff_ffff,
    ;
}

} // verus!
