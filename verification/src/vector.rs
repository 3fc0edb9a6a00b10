//! Three-component fixed-point vectors in the body frame, and the residual
//! decomposition the mixer applies per motor arm.

use vstd::prelude::*;
use crate::math::sqrt_floor;
use crate::math::isqrt;

verus! {

/// A three-component vector of fixed-point scalars, in body-frame
/// coordinates.
#[derive(Clone, Copy, PartialEq, Eq, Structural, Debug)]
pub struct Vec3 {
    pub x: i64,
    pub y: i64,
    pub z: i64,
}

/// Every component of `v` has magnitude at most `b`.
pub open spec fn bounded(v: Vec3, b: int) -> bool {
    &&& -b <= v.x <= b
    &&& -b <= v.y <= b
    &&& -b <= v.z <= b
}

/// Mathematical dot product.
pub open spec fn dot(a: Vec3, b: Vec3) -> int {
    a.x * b.x + a.y * b.y + a.z * b.z
}

/// Mathematical squared Euclidean norm.
pub open spec fn norm_sq(v: Vec3) -> int {
    dot(v, v)
}

/// The components of a vector as an exact integer triple.
pub open spec fn view3(v: Vec3) -> (int, int, int) {
    (v.x as int, v.y as int, v.z as int)
}

/// Dot product of an exact integer triple with a vector.
pub open spec fn triple_dot(a: (int, int, int), p: Vec3) -> int {
    a.0 * p.x + a.1 * p.y + a.2 * p.z
}

/// What is left of the torque error `t` after subtracting `p` scaled by the
/// dot product `p . t`: the mixer's per-arm residual, as exact integers.
pub open spec fn residual(t: (int, int, int), p: Vec3) -> (int, int, int) {
    (t.0 - p.x * triple_dot(t, p), t.1 - p.y * triple_dot(t, p), t.2 - p.z * triple_dot(t, p))
}

/// Squared Euclidean norm of an exact integer triple.
pub open spec fn triple_norm_sq(a: (int, int, int)) -> int {
    a.0 * a.0 + a.1 * a.1 + a.2 * a.2
}

/// A product is bounded by the product of the bounds on its factors.
pub proof fn lemma_mul_bound(a: int, b: int, am: int, bm: int) by (nonlinear_arith)
    requires
        -am <= a <= am,
        -bm <= b <= bm,
    ensures
        -(am * bm) <= a * b <= am * bm,
{
}

/// A square is never negative.
pub proof fn lemma_square_nonneg(a: int) by (nonlinear_arith)
    ensures
        0 <= a * a,
{
}

/// Scalar form of the residual identity, as a polynomial equation, built
/// from one distribution step per coordinate.
proof fn lemma_residual_dot_scalar(px: int, py: int, pz: int, tx: int, ty: int, tz: int, d: int)
    requires
        d == px * tx + py * ty + pz * tz,
    ensures
        (tx - px * d) * px + (ty - py * d) * py + (tz - pz * d) * pz
            == (1 - (px * px + py * py + pz * pz)) * d,
{
    assert((tx - px * d) * px == tx * px - (px * px) * d) by (nonlinear_arith);
    assert((ty - py * d) * py == ty * py - (py * py) * d) by (nonlinear_arith);
    assert((tz - pz * d) * pz == tz * pz - (pz * pz) * d) by (nonlinear_arith);
    assert(tx * px + ty * py + tz * pz == d) by (nonlinear_arith)
        requires
            d == px * tx + py * ty + pz * tz,
    ;
    assert((px * px) * d + (py * py) * d + (pz * pz) * d == (px * px + py * py + pz * pz) * d)
        by (nonlinear_arith);
    assert((1 - (px * px + py * py + pz * pz)) * d == d - (px * px + py * py + pz * pz) * d)
        by (nonlinear_arith);
}

/// Exact value of the residual's dot product with the arm vector: it is
/// `(1 - |p|^2) * (p . t)`, so it vanishes exactly when either factor does.
pub proof fn lemma_residual_dot(t: (int, int, int), p: Vec3)
    ensures
        triple_dot(residual(t, p), p) == (1 - norm_sq(p)) * triple_dot(t, p),
{
    lemma_residual_dot_scalar(p.x as int, p.y as int, p.z as int, t.0, t.1, t.2, triple_dot(t, p));
}

/// Perpendicularity of the residual: whenever the torque error is already
/// orthogonal to the arm vector, the residual stays orthogonal to it.
pub proof fn lemma_residual_perpendicular(t: (int, int, int), p: Vec3)
    requires
        triple_dot(t, p) == 0,
    ensures
        triple_dot(residual(t, p), p) == 0,
{
    lemma_residual_dot(t, p);
}

impl Vec3 {
    /// The zero vector.
    pub fn zeros() -> (r: Vec3)
        ensures
            r == (Vec3 { x: 0, y: 0, z: 0 }),
    {
        Vec3 { x: 0, y: 0, z: 0 }
    }

    /// Componentwise difference.
    pub fn minus(&self, other: &Vec3) -> (r: Vec3)
        requires
            bounded(*self, 2_000_000_000),
            bounded(*other, 8_000_000_000),
        ensures
            r.x == self.x - other.x,
            r.y == self.y - other.y,
            r.z == self.z - other.z,
    {
        Vec3 { x: self.x - other.x, y: self.y - other.y, z: self.z - other.z }
    }

    /// The vector scaled by `s`, componentwise.
    pub fn scaled(&self, s: i64) -> (r: Vec3)
        requires
            bounded(*self, 2),
            -4_000_000_000 <= s <= 4_000_000_000,
        ensures
            r.x == self.x * s,
            r.y == self.y * s,
            r.z == self.z * s,
    {
        proof {
            lemma_mul_bound(self.x as int, s as int, 2, 4_000_000_000);
            lemma_mul_bound(self.y as int, s as int, 2, 4_000_000_000);
            lemma_mul_bound(self.z as int, s as int, 2, 4_000_000_000);
        }
        Vec3 { x: self.x * s, y: self.y * s, z: self.z * s }
    }

    /// Dot product of a small geometry vector with a fixed-point vector.
    pub fn dot_with(&self, other: &Vec3) -> (r: i64)
        requires
            bounded(*self, 2),
            bounded(*other, 2_000_000_000),
        ensures
            r == dot(*self, *other),
    {
        proof {
            lemma_mul_bound(self.x as int, other.x as int, 2, 2_000_000_000);
            lemma_mul_bound(self.y as int, other.y as int, 2, 2_000_000_000);
            lemma_mul_bound(self.z as int, other.z as int, 2, 2_000_000_000);
        }
        self.x * other.x + self.y * other.y + self.z * other.z
    }

    /// The residual of the torque error `self` for the arm at `pos`: the
    /// vector minus `pos` scaled by the dot product `pos . self`.
    pub fn residual_of(&self, pos: &Vec3) -> (r: Vec3)
        requires
            bounded(*self, 501_000_000),
            self.y == 0,
            bounded(*pos, 1),
        ensures
            r.x == residual(view3(*self), *pos).0,
            r.y == residual(view3(*self), *pos).1,
            r.z == residual(view3(*self), *pos).2,
            bounded(r, 1_700_000_000),
    {
        proof {
            lemma_mul_bound(pos.x as int, self.x as int, 1, 501_000_000);
            lemma_mul_bound(pos.z as int, self.z as int, 1, 501_000_000);
        }
        let d = pos.dot_with(self);
        assert(-1_002_000_000 <= d <= 1_002_000_000);
        proof {
            lemma_mul_bound(pos.x as int, d as int, 1, 1_002_000_000);
            lemma_mul_bound(pos.y as int, d as int, 1, 1_002_000_000);
            lemma_mul_bound(pos.z as int, d as int, 1, 1_002_000_000);
        }
        let scaled_v = pos.scaled(d);
        let res = self.minus(&scaled_v);
        proof {
            assert((self.x as int) * (pos.x as int) == (pos.x as int) * (self.x as int))
                by (nonlinear_arith);
            assert((self.y as int) * (pos.y as int) == (pos.y as int) * (self.y as int))
                by (nonlinear_arith);
            assert((self.z as int) * (pos.z as int) == (pos.z as int) * (self.z as int))
                by (nonlinear_arith);
            assert(triple_dot(view3(*self), *pos) == dot(*pos, *self));
        }
        res
    }

    /// Floor of the Euclidean norm.
    pub fn norm(&self) -> (r: i64)
        requires
            bounded(*self, 1_700_000_000),
        ensures
            0 <= norm_sq(*self),
            r == sqrt_floor(norm_sq(*self) as nat),
            0 <= r <= 3_100_000_000,
    {
        proof {
            lemma_mul_bound(self.x as int, self.x as int, 1_700_000_000, 1_700_000_000);
            lemma_mul_bound(self.y as int, self.y as int, 1_700_000_000, 1_700_000_000);
            lemma_mul_bound(self.z as int, self.z as int, 1_700_000_000, 1_700_000_000);
            lemma_square_nonneg(self.x as int);
            lemma_square_nonneg(self.y as int);
            lemma_square_nonneg(self.z as int);
        }
        let sq: i64 = self.x * self.x + self.y * self.y + self.z * self.z;
        let root: u64 = isqrt(sq as u64);
        proof {
            assert(root <= 3_100_000_000) by (nonlinear_arith)
                requires
                    (root as int) * (root as int) <= sq as int,
                    sq as int <= 3 * 1_700_000_000int * 1_700_000_000int,
                    0 <= root,
            ;
        }
        root as i64
    }
}

} // verus!
