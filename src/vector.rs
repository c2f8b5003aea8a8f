//! Fixed-point three-dimensional vectors.
use vstd::prelude::*;

use crate::fixed::{
    floor_div, fmul, lemma_div_within, lemma_mul_within, lemma_tdiv_neg, lemma_tdiv_within, mul_fx, tdiv, trunc_div,
    within, SCALE,
};

verus! {

/// A vector whose components count millionths of a unit.
#[derive(Clone, Copy, Debug, PartialEq, Eq)]
pub struct Vec3 {
    pub x: i128,
    pub y: i128,
    pub z: i128,
}

/// The mathematical value of a [`Vec3`].
pub struct IVec3 {
    pub x: int,
    pub y: int,
    pub z: int,
}

impl View for Vec3 {
    type V = IVec3;

    open spec fn view(&self) -> IVec3 {
        IVec3 { x: self.x as int, y: self.y as int, z: self.z as int }
    }
}

pub open spec fn ivec(x: int, y: int, z: int) -> IVec3 {
    IVec3 { x, y, z }
}

pub open spec fn zero3() -> IVec3 {
    ivec(0, 0, 0)
}

pub open spec fn within3(v: IVec3, m: int) -> bool {
    within(v.x, m) && within(v.y, m) && within(v.z, m)
}

pub open spec fn add3(a: IVec3, b: IVec3) -> IVec3 {
    ivec(a.x + b.x, a.y + b.y, a.z + b.z)
}

pub open spec fn sub3(a: IVec3, b: IVec3) -> IVec3 {
    ivec(a.x - b.x, a.y - b.y, a.z - b.z)
}

pub open spec fn neg3(a: IVec3) -> IVec3 {
    ivec(-a.x, -a.y, -a.z)
}

/// Each component multiplied by the fixed-point scalar `k`.
pub open spec fn scale3(a: IVec3, k: int) -> IVec3 {
    ivec(fmul(a.x, k), fmul(a.y, k), fmul(a.z, k))
}

/// Fixed-point dot product, rounded once.
pub open spec fn dot3(a: IVec3, b: IVec3) -> int {
    (a.x * b.x + a.y * b.y + a.z * b.z) / (SCALE as int)
}

/// Fixed-point cross product, each component rounded once toward zero, so
/// that negating either factor negates the product exactly.
pub open spec fn cross3(a: IVec3, b: IVec3) -> IVec3 {
    ivec(
        tdiv(a.y * b.z - a.z * b.y, SCALE as int),
        tdiv(a.z * b.x - a.x * b.z, SCALE as int),
        tdiv(a.x * b.y - a.y * b.x, SCALE as int),
    )
}

/// Componentwise linear interpolation from `a` (at `t = 0`) to `b` (at `t = SCALE`).
pub open spec fn lerp3(a: IVec3, b: IVec3, t: int) -> IVec3 {
    add3(a, scale3(sub3(b, a), t))
}

/// Largest magnitude of an `i128` product that the vector operations accept.
pub const PRODUCT_LIMIT: i128 = 1_000_000_000_000_000_000_000_000_000_000_000_000;

/// Bounds on the products that [`Vec3::scale`] forms, and on its result.
pub proof fn lemma_scale_within(a: IVec3, k: int, am: int, km: int)
    requires
        within3(a, am),
        within(k, km),
        am >= 0,
        km >= 0,
    ensures
        within(a.x * k, am * km),
        within(a.y * k, am * km),
        within(a.z * k, am * km),
        within3(scale3(a, k), (am * km) / (SCALE as int) + 1),
{
    lemma_mul_within(a.x, k, am, km);
    lemma_mul_within(a.y, k, am, km);
    lemma_mul_within(a.z, k, am, km);
    lemma_mul_within(am, km, am, km);
    lemma_div_within(a.x * k, SCALE as int, am * km);
    lemma_div_within(a.y * k, SCALE as int, am * km);
    lemma_div_within(a.z * k, SCALE as int, am * km);
}

/// Bounds on the products that [`Vec3::dot`] forms, and on its result.
pub proof fn lemma_dot_within(a: IVec3, b: IVec3, am: int, bm: int)
    requires
        within3(a, am),
        within3(b, bm),
        am >= 0,
        bm >= 0,
    ensures
        within(a.x * b.x, am * bm),
        within(a.y * b.y, am * bm),
        within(a.z * b.z, am * bm),
        within(dot3(a, b), (3 * am * bm) / (SCALE as int) + 1),
{
    lemma_mul_within(a.x, b.x, am, bm);
    lemma_mul_within(a.y, b.y, am, bm);
    lemma_mul_within(a.z, b.z, am, bm);
    lemma_mul_within(am, bm, am, bm);
    assert(3 * am * bm == 3 * (am * bm)) by (nonlinear_arith);
    lemma_div_within(a.x * b.x + a.y * b.y + a.z * b.z, SCALE as int, 3 * am * bm);
}

/// Bounds on the products that [`Vec3::cross`] forms, and on its result.
pub proof fn lemma_cross_within(a: IVec3, b: IVec3, am: int, bm: int)
    requires
        within3(a, am),
        within3(b, bm),
        am >= 0,
        bm >= 0,
    ensures
        within(a.y * b.z, am * bm),
        within(a.z * b.y, am * bm),
        within(a.z * b.x, am * bm),
        within(a.x * b.z, am * bm),
        within(a.x * b.y, am * bm),
        within(a.y * b.x, am * bm),
        within3(cross3(a, b), (2 * am * bm) / (SCALE as int) + 1),
{
    lemma_mul_within(a.y, b.z, am, bm);
    lemma_mul_within(a.z, b.y, am, bm);
    lemma_mul_within(a.z, b.x, am, bm);
    lemma_mul_within(a.x, b.z, am, bm);
    lemma_mul_within(a.x, b.y, am, bm);
    lemma_mul_within(a.y, b.x, am, bm);
    lemma_mul_within(am, bm, am, bm);
    assert(2 * am * bm == 2 * (am * bm)) by (nonlinear_arith);
    lemma_tdiv_within(a.y * b.z - a.z * b.y, SCALE as int, 2 * am * bm);
    lemma_tdiv_within(a.z * b.x - a.x * b.z, SCALE as int, 2 * am * bm);
    lemma_tdiv_within(a.x * b.y - a.y * b.x, SCALE as int, 2 * am * bm);
}

/// Negating the second factor negates the cross product exactly.
pub proof fn lemma_cross_neg(a: IVec3, b: IVec3)
    ensures
        cross3(a, neg3(b)) == neg3(cross3(a, b)),
{
    let (x, y, z) = (a.y * b.z - a.z * b.y, a.z * b.x - a.x * b.z, a.x * b.y - a.y * b.x);
    assert(a.y * -b.z - a.z * -b.y == -x && a.z * -b.x - a.x * -b.z == -y && a.x * -b.y - a.y
        * -b.x == -z) by (nonlinear_arith)
        requires
            x == a.y * b.z - a.z * b.y,
            y == a.z * b.x - a.x * b.z,
            z == a.x * b.y - a.y * b.x,
    {
    }
    lemma_tdiv_neg(x, SCALE as int);
    lemma_tdiv_neg(y, SCALE as int);
    lemma_tdiv_neg(z, SCALE as int);
}

impl Vec3 {
    pub fn new(x: i128, y: i128, z: i128) -> (r: Vec3)
        ensures
            r@ == ivec(x as int, y as int, z as int),
    {
        Vec3 { x, y, z }
    }

    pub fn zero() -> (r: Vec3)
        ensures
            r@ == zero3(),
    {
        Vec3 { x: 0, y: 0, z: 0 }
    }

    pub fn add(&self, o: &Vec3) -> (r: Vec3)
        requires
            within3(add3(self@, o@), i128::MAX as int),
        ensures
            r@ == add3(self@, o@),
    {
        Vec3 { x: self.x + o.x, y: self.y + o.y, z: self.z + o.z }
    }

    pub fn sub(&self, o: &Vec3) -> (r: Vec3)
        requires
            within3(sub3(self@, o@), i128::MAX as int),
        ensures
            r@ == sub3(self@, o@),
    {
        Vec3 { x: self.x - o.x, y: self.y - o.y, z: self.z - o.z }
    }

    pub fn neg(&self) -> (r: Vec3)
        requires
            within3(self@, i128::MAX as int),
        ensures
            r@ == neg3(self@),
    {
        Vec3 { x: -self.x, y: -self.y, z: -self.z }
    }

    /// Interpolation between two vectors with components of at most one unit.
    pub fn lerp(&self, o: &Vec3, t: i128) -> (r: Vec3)
        requires
            within3(self@, SCALE as int),
            within3(o@, SCALE as int),
            0 <= t <= SCALE,
        ensures
            r@ == lerp3(self@, o@, t as int),
            within3(r@, 3 * SCALE as int + 1),
    {
        let d = o.sub(self);
        proof {
            lemma_scale_within(d@, t as int, 2 * SCALE as int, SCALE as int);
        }
        self.add(&d.scale(t))
    }

    pub fn scale(&self, k: i128) -> (r: Vec3)
        requires
            within(self.x * k, PRODUCT_LIMIT as int),
            within(self.y * k, PRODUCT_LIMIT as int),
            within(self.z * k, PRODUCT_LIMIT as int),
        ensures
            r@ == scale3(self@, k as int),
    {
        Vec3 { x: mul_fx(self.x, k), y: mul_fx(self.y, k), z: mul_fx(self.z, k) }
    }

    pub fn dot(&self, o: &Vec3) -> (r: i128)
        requires
            within(self.x * o.x, PRODUCT_LIMIT as int),
            within(self.y * o.y, PRODUCT_LIMIT as int),
            within(self.z * o.z, PRODUCT_LIMIT as int),
        ensures
            r == dot3(self@, o@),
    {
        floor_div(self.x * o.x + self.y * o.y + self.z * o.z, SCALE)
    }

    pub fn cross(&self, o: &Vec3) -> (r: Vec3)
        requires
            within(self.y * o.z, PRODUCT_LIMIT as int),
            within(self.z * o.y, PRODUCT_LIMIT as int),
            within(self.z * o.x, PRODUCT_LIMIT as int),
            within(self.x * o.z, PRODUCT_LIMIT as int),
            within(self.x * o.y, PRODUCT_LIMIT as int),
            within(self.y * o.x, PRODUCT_LIMIT as int),
        ensures
            r@ == cross3(self@, o@),
    {
        Vec3 {
            x: trunc_div(self.y * o.z - self.z * o.y, SCALE),
            y: trunc_div(self.z * o.x - self.x * o.z, SCALE),
            z: trunc_div(self.x * o.y - self.y * o.x, SCALE),
        }
    }
}

} // verus!
