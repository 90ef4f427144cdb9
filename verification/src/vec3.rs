//! The three-component vector type and its operations.

use vstd::prelude::*;

use crate::arith::{
    add_bits, add_gives_nan, div_bits, div_gives_nan, f32_add, f32_div, f32_mul, f32_sub, f32_sqrt,
    mul_bits, mul_gives_nan, sqrt_bits, sqrt_gives_nan, sub_bits, sub_gives_nan,
};
use crate::bits::{
    flip_sign, is_nan, is_pos_finite, lemma_bit_facts, lemma_constant_facts, positive_and_finite,
    same_value_or_nan, sign_bit, val_eq, ONE_BITS, POS_ZERO, SIGN_MASK,
};

verus! {

/// A vector of three binary32 components, each carried as its raw bit
/// pattern.  Any three patterns form a valid vector, NaN and infinity
/// included; every operation is total.
#[derive(Debug, Clone, Copy, PartialEq, Eq)]
pub struct Vec3 {
    pub x: u32,
    pub y: u32,
    pub z: u32,
}

/// The zero vector: every component is `+0.0`.
pub open spec fn zero3() -> Vec3 {
    Vec3 { x: POS_ZERO, y: POS_ZERO, z: POS_ZERO }
}

/// No component of the vector is a NaN.
pub open spec fn no_nan(v: Vec3) -> bool {
    !is_nan(v.x) && !is_nan(v.y) && !is_nan(v.z)
}

/// The vector with every component's sign flipped.
pub open spec fn neg3(v: Vec3) -> Vec3 {
    Vec3 { x: flip_sign(v.x), y: flip_sign(v.y), z: flip_sign(v.z) }
}

/// The vectors are equal as floating-point values, component by component.
pub open spec fn val_eq3(a: Vec3, b: Vec3) -> bool {
    val_eq(a.x, b.x) && val_eq(a.y, b.y) && val_eq(a.z, b.z)
}

/// The vector whose three components all hold the given pattern.
pub open spec fn splat(s: u32) -> Vec3 {
    Vec3 { x: s, y: s, z: s }
}

/// The componentwise binary32 sum of two vectors.
pub open spec fn sum3(a: Vec3, b: Vec3) -> Vec3 {
    Vec3 { x: add_bits(a.x, b.x), y: add_bits(a.y, b.y), z: add_bits(a.z, b.z) }
}

/// Each component of `r` is a NaN exactly when the matching addition of `a`
/// and `b` gives one.
pub open spec fn sum3_nan(a: Vec3, b: Vec3, r: Vec3) -> bool {
    is_nan(r.x) == add_gives_nan(a.x, b.x) && is_nan(r.y) == add_gives_nan(a.y, b.y) && is_nan(
        r.z,
    ) == add_gives_nan(a.z, b.z)
}

/// The componentwise binary32 difference of two vectors.
pub open spec fn diff3(a: Vec3, b: Vec3) -> Vec3 {
    Vec3 { x: sub_bits(a.x, b.x), y: sub_bits(a.y, b.y), z: sub_bits(a.z, b.z) }
}

/// Each component of `r` is a NaN exactly when the matching subtraction of
/// `a` and `b` gives one.
pub open spec fn diff3_nan(a: Vec3, b: Vec3, r: Vec3) -> bool {
    is_nan(r.x) == sub_gives_nan(a.x, b.x) && is_nan(r.y) == sub_gives_nan(a.y, b.y) && is_nan(
        r.z,
    ) == sub_gives_nan(a.z, b.z)
}

/// The componentwise binary32 product of two vectors.
pub open spec fn prod3(a: Vec3, b: Vec3) -> Vec3 {
    Vec3 { x: mul_bits(a.x, b.x), y: mul_bits(a.y, b.y), z: mul_bits(a.z, b.z) }
}

/// Each component of `r` is a NaN exactly when the matching multiplication
/// of `a` and `b` gives one.
pub open spec fn prod3_nan(a: Vec3, b: Vec3, r: Vec3) -> bool {
    is_nan(r.x) == mul_gives_nan(a.x, b.x) && is_nan(r.y) == mul_gives_nan(a.y, b.y) && is_nan(
        r.z,
    ) == mul_gives_nan(a.z, b.z)
}

/// The componentwise binary32 quotient of two vectors.
pub open spec fn quot3(a: Vec3, b: Vec3) -> Vec3 {
    Vec3 { x: div_bits(a.x, b.x), y: div_bits(a.y, b.y), z: div_bits(a.z, b.z) }
}

/// Each component of `r` is a NaN exactly when the matching division of `a`
/// and `b` gives one.
pub open spec fn quot3_nan(a: Vec3, b: Vec3, r: Vec3) -> bool {
    is_nan(r.x) == div_gives_nan(a.x, b.x) && is_nan(r.y) == div_gives_nan(a.y, b.y) && is_nan(
        r.z,
    ) == div_gives_nan(a.z, b.z)
}

/// The binary32 dot product of two vectors: the products of matching
/// components, summed left to right.
pub open spec fn dot3(a: Vec3, b: Vec3) -> u32 {
    add_bits(add_bits(mul_bits(a.x, b.x), mul_bits(a.y, b.y)), mul_bits(a.z, b.z))
}

/// Whether some componentwise multiplication inside the dot product of `a`
/// and `b` gives a NaN.
pub open spec fn dot3_prod_nan(a: Vec3, b: Vec3) -> bool {
    mul_gives_nan(a.x, b.x) || mul_gives_nan(a.y, b.y) || mul_gives_nan(a.z, b.z)
}

/// Whether the dot product of `a` and `b` is a NaN.
pub open spec fn dot3_nan(a: Vec3, b: Vec3) -> bool {
    add_gives_nan(add_bits(mul_bits(a.x, b.x), mul_bits(a.y, b.y)), mul_bits(a.z, b.z))
}

/// The binary32 magnitude of a vector: the square root of its dot product
/// with itself.
pub open spec fn mag3(v: Vec3) -> u32 {
    sqrt_bits(dot3(v, v))
}

/// Whether the magnitude of `v` is a NaN.
pub open spec fn mag3_nan(v: Vec3) -> bool {
    sqrt_gives_nan(dot3(v, v))
}

/// The binary32 cross product of two vectors.
pub open spec fn cross3(a: Vec3, b: Vec3) -> Vec3 {
    Vec3 {
        x: sub_bits(mul_bits(a.y, b.z), mul_bits(a.z, b.y)),
        y: sub_bits(mul_bits(a.z, b.x), mul_bits(a.x, b.z)),
        z: sub_bits(mul_bits(a.x, b.y), mul_bits(a.y, b.x)),
    }
}

/// Each component of `r` is a NaN exactly when the matching subtraction of
/// products inside the cross product of `a` and `b` gives one.
pub open spec fn cross3_nan(a: Vec3, b: Vec3, r: Vec3) -> bool {
    is_nan(r.x) == sub_gives_nan(mul_bits(a.y, b.z), mul_bits(a.z, b.y)) && is_nan(r.y)
        == sub_gives_nan(mul_bits(a.z, b.x), mul_bits(a.x, b.z)) && is_nan(r.z) == sub_gives_nan(
        mul_bits(a.x, b.y),
        mul_bits(a.y, b.x),
    )
}

/// The binary32 distance between two vectors: the magnitude of their
/// componentwise difference.
pub open spec fn dist3(a: Vec3, b: Vec3) -> u32 {
    mag3(diff3(b, a))
}

/// Whether the distance between `a` and `b` is a NaN.
pub open spec fn dist3_nan(a: Vec3, b: Vec3) -> bool {
    mag3_nan(diff3(b, a))
}

/// The scale factor normalization applies: the reciprocal of the magnitude.
pub open spec fn norm_scale(v: Vec3) -> u32 {
    div_bits(ONE_BITS, mag3(v))
}

/// Normalization scales the vector only when the reciprocal of its
/// magnitude is a finite, strictly positive number; on every other input it
/// returns the zero vector.
pub open spec fn norm_scales(v: Vec3) -> bool {
    is_pos_finite(norm_scale(v))
}

impl Vec3 {
    /// A new vector whose three components all hold the given pattern.
    pub fn fill(v: u32) -> (r: Vec3)
        ensures
            r == (Vec3 { x: v, y: v, z: v }),
    {
        Vec3 { x: v, y: v, z: v }
    }

    /// A new vector with the given components.
    pub fn new(x: u32, y: u32, z: u32) -> (r: Vec3)
        ensures
            r == (Vec3 { x, y, z }),
    {
        Vec3 { x, y, z }
    }

    /// The components as an ordered triple.
    pub fn parts(&self) -> (r: (u32, u32, u32))
        ensures
            r == (self.x, self.y, self.z),
    {
        (self.x, self.y, self.z)
    }

    /// The vector with every component's arithmetic sign inverted; NaN
    /// components stay NaN.
    pub fn neg(self) -> (r: Vec3)
        ensures
            r == neg3(self),
    {
        Vec3 { x: self.x ^ SIGN_MASK, y: self.y ^ SIGN_MASK, z: self.z ^ SIGN_MASK }
    }

    /// The componentwise sum of the two vectors.  Adding the zero vector to
    /// a vector without NaN components returns an equal vector (the additive
    /// identity).
    pub fn add(self, v: Vec3) -> (r: Vec3)
        ensures
            r == sum3(self, v),
            sum3_nan(self, v, r),
            v == zero3() && no_nan(self) ==> val_eq3(r, self),
    {
        proof {
            lemma_constant_facts();
            lemma_bit_facts(self.x);
            lemma_bit_facts(self.y);
            lemma_bit_facts(self.z);
        }
        Vec3 {
            x: f32_add(self.x, v.x),
            y: f32_add(self.y, v.y),
            z: f32_add(self.z, v.z),
        }
    }

    /// The sum of the vector and a scalar, applied to each component.
    pub fn add_scalar(self, s: u32) -> (r: Vec3)
        ensures
            r == sum3(self, splat(s)),
            sum3_nan(self, splat(s), r),
    {
        Vec3 {
            x: f32_add(self.x, s),
            y: f32_add(self.y, s),
            z: f32_add(self.z, s),
        }
    }

    /// Adds the given vector to this one in place, component by component.
    pub fn add_assign(&mut self, v: Vec3)
        ensures
            *final(self) == sum3(*old(self), v),
            sum3_nan(*old(self), v, *final(self)),
    {
        self.x = f32_add(self.x, v.x);
        self.y = f32_add(self.y, v.y);
        self.z = f32_add(self.z, v.z);
    }

    /// Adds the scalar to every component of this vector in place.
    pub fn add_assign_scalar(&mut self, s: u32)
        ensures
            *final(self) == sum3(*old(self), splat(s)),
            sum3_nan(*old(self), splat(s), *final(self)),
    {
        self.x = f32_add(self.x, s);
        self.y = f32_add(self.y, s);
        self.z = f32_add(self.z, s);
    }

    /// The componentwise difference of the two vectors.
    pub fn sub(self, v: Vec3) -> (r: Vec3)
        ensures
            r == diff3(self, v),
            diff3_nan(self, v, r),
    {
        Vec3 {
            x: f32_sub(self.x, v.x),
            y: f32_sub(self.y, v.y),
            z: f32_sub(self.z, v.z),
        }
    }

    /// The difference of the vector and a scalar, applied to each component.
    pub fn sub_scalar(self, s: u32) -> (r: Vec3)
        ensures
            r == diff3(self, splat(s)),
            diff3_nan(self, splat(s), r),
    {
        Vec3 {
            x: f32_sub(self.x, s),
            y: f32_sub(self.y, s),
            z: f32_sub(self.z, s),
        }
    }

    /// Subtracts the given vector from this one in place, component by
    /// component.
    pub fn sub_assign(&mut self, v: Vec3)
        ensures
            *final(self) == diff3(*old(self), v),
            diff3_nan(*old(self), v, *final(self)),
    {
        self.x = f32_sub(self.x, v.x);
        self.y = f32_sub(self.y, v.y);
        self.z = f32_sub(self.z, v.z);
    }

    /// Subtracts the scalar from every component of this vector in place.
    pub fn sub_assign_scalar(&mut self, s: u32)
        ensures
            *final(self) == diff3(*old(self), splat(s)),
            diff3_nan(*old(self), splat(s), *final(self)),
    {
        self.x = f32_sub(self.x, s);
        self.y = f32_sub(self.y, s);
        self.z = f32_sub(self.z, s);
    }

    /// The componentwise product of the two vectors.  Multiplying a vector
    /// without NaN components by the all-ones vector returns it unchanged,
    /// bit for bit (the multiplicative identity).
    pub fn mul(self, v: Vec3) -> (r: Vec3)
        ensures
            r == prod3(self, v),
            prod3_nan(self, v, r),
            v == splat(ONE_BITS) && no_nan(self) ==> r == self,
    {
        Vec3 {
            x: f32_mul(self.x, v.x),
            y: f32_mul(self.y, v.y),
            z: f32_mul(self.z, v.z),
        }
    }

    /// The product of the vector and a scalar, applied to each component.
    pub fn mul_scalar(self, s: u32) -> (r: Vec3)
        ensures
            r == prod3(self, splat(s)),
            prod3_nan(self, splat(s), r),
            !is_nan(r.x) ==> sign_bit(r.x) == (sign_bit(self.x) != sign_bit(s)),
            !is_nan(r.y) ==> sign_bit(r.y) == (sign_bit(self.y) != sign_bit(s)),
            !is_nan(r.z) ==> sign_bit(r.z) == (sign_bit(self.z) != sign_bit(s)),
    {
        Vec3 {
            x: f32_mul(self.x, s),
            y: f32_mul(self.y, s),
            z: f32_mul(self.z, s),
        }
    }

    /// Multiplies this vector by the given one in place, component by
    /// component.
    pub fn mul_assign(&mut self, v: Vec3)
        ensures
            *final(self) == prod3(*old(self), v),
            prod3_nan(*old(self), v, *final(self)),
    {
        self.x = f32_mul(self.x, v.x);
        self.y = f32_mul(self.y, v.y);
        self.z = f32_mul(self.z, v.z);
    }

    /// Multiplies every component of this vector by the scalar in place.
    pub fn mul_assign_scalar(&mut self, s: u32)
        ensures
            *final(self) == prod3(*old(self), splat(s)),
            prod3_nan(*old(self), splat(s), *final(self)),
    {
        self.x = f32_mul(self.x, s);
        self.y = f32_mul(self.y, s);
        self.z = f32_mul(self.z, s);
    }

    /// The componentwise quotient of the two vectors.  Division by zero
    /// follows the binary32 rules: it yields an infinity, or a NaN for zero
    /// over zero.
    pub fn div(self, v: Vec3) -> (r: Vec3)
        ensures
            r == quot3(self, v),
            quot3_nan(self, v, r),
    {
        Vec3 {
            x: f32_div(self.x, v.x),
            y: f32_div(self.y, v.y),
            z: f32_div(self.z, v.z),
        }
    }

    /// The quotient of the vector and a scalar, applied to each component.
    pub fn div_scalar(self, s: u32) -> (r: Vec3)
        ensures
            r == quot3(self, splat(s)),
            quot3_nan(self, splat(s), r),
    {
        Vec3 {
            x: f32_div(self.x, s),
            y: f32_div(self.y, s),
            z: f32_div(self.z, s),
        }
    }

    /// Divides this vector by the given one in place, component by
    /// component.
    pub fn div_assign(&mut self, v: Vec3)
        ensures
            *final(self) == quot3(*old(self), v),
            quot3_nan(*old(self), v, *final(self)),
    {
        self.x = f32_div(self.x, v.x);
        self.y = f32_div(self.y, v.y);
        self.z = f32_div(self.z, v.z);
    }

    /// Divides every component of this vector by the scalar in place.
    pub fn div_assign_scalar(&mut self, s: u32)
        ensures
            *final(self) == quot3(*old(self), splat(s)),
            quot3_nan(*old(self), splat(s), *final(self)),
    {
        self.x = f32_div(self.x, s);
        self.y = f32_div(self.y, s);
        self.z = f32_div(self.z, s);
    }

    /// The dot product of the two vectors: the products of matching
    /// components, summed left to right.  The result does not depend on the
    /// order of the two vectors: unless a NaN arises in the products the
    /// two orders agree bit for bit, and otherwise both are NaN
    /// (commutativity).
    pub fn dot(&self, v: &Vec3) -> (r: u32)
        ensures
            r == dot3(*self, *v),
            is_nan(r) == dot3_nan(*self, *v),
            !dot3_prod_nan(*self, *v) ==> r == dot3(*v, *self),
            dot3_prod_nan(*self, *v) ==> is_nan(r),
            *self == zero3() && *v == zero3() ==> r == POS_ZERO,
    {
        proof {
            lemma_constant_facts();
        }
        let px: u32 = f32_mul(self.x, v.x);
        let py: u32 = f32_mul(self.y, v.y);
        let pz: u32 = f32_mul(self.z, v.z);
        proof {
            lemma_bit_facts(px);
            lemma_bit_facts(py);
            lemma_bit_facts(pz);
        }
        let s: u32 = f32_add(px, py);
        f32_add(s, pz)
    }

    /// The magnitude (Euclidean length) of the vector: the square root of
    /// its dot product with itself.
    pub fn mag(&self) -> (r: u32)
        ensures
            r == mag3(*self),
            is_nan(r) == mag3_nan(*self),
            *self == zero3() ==> r == POS_ZERO,
    {
        proof {
            lemma_constant_facts();
        }
        let d: u32 = self.dot(self);
        f32_sqrt(d)
    }

    /// The cross product of the two vectors.  Each component of
    /// `cross(a, b)` equals the matching component of `cross(b, a)` with
    /// its sign inverted, as floating-point values, unless a NaN arises in
    /// that component's products — and then both are NaN
    /// (anti-commutativity).
    pub fn cross(&self, v: &Vec3) -> (r: Vec3)
        ensures
            r == cross3(*self, *v),
            cross3_nan(*self, *v, r),
            mul_gives_nan(self.y, v.z) || mul_gives_nan(self.z, v.y) ==> is_nan(r.x),
            mul_gives_nan(self.z, v.x) || mul_gives_nan(self.x, v.z) ==> is_nan(r.y),
            mul_gives_nan(self.x, v.y) || mul_gives_nan(self.y, v.x) ==> is_nan(r.z),
            !mul_gives_nan(self.y, v.z) && !mul_gives_nan(self.z, v.y) ==> same_value_or_nan(
                r.x,
                flip_sign(cross3(*v, *self).x),
            ),
            !mul_gives_nan(self.z, v.x) && !mul_gives_nan(self.x, v.z) ==> same_value_or_nan(
                r.y,
                flip_sign(cross3(*v, *self).y),
            ),
            !mul_gives_nan(self.x, v.y) && !mul_gives_nan(self.y, v.x) ==> same_value_or_nan(
                r.z,
                flip_sign(cross3(*v, *self).z),
            ),
    {
        let xp: u32 = f32_mul(self.y, v.z);
        let xq: u32 = f32_mul(self.z, v.y);
        let yp: u32 = f32_mul(self.z, v.x);
        let yq: u32 = f32_mul(self.x, v.z);
        let zp: u32 = f32_mul(self.x, v.y);
        let zq: u32 = f32_mul(self.y, v.x);
        Vec3 { x: f32_sub(xp, xq), y: f32_sub(yp, yq), z: f32_sub(zp, zq) }
    }

    /// The Euclidean distance from this vector to `b`: the three
    /// componentwise differences are squared by multiplication, summed, and
    /// square-rooted.
    pub fn dist(self, b: Vec3) -> (r: u32)
        ensures
            r == dist3(self, b),
            is_nan(r) == dist3_nan(self, b),
    {
        let dx: u32 = f32_sub(b.x, self.x);
        let dy: u32 = f32_sub(b.y, self.y);
        let dz: u32 = f32_sub(b.z, self.z);
        let sx: u32 = f32_mul(dx, dx);
        let sy: u32 = f32_mul(dy, dy);
        let sz: u32 = f32_mul(dz, dz);
        f32_sqrt(f32_add(f32_add(sx, sy), sz))
    }

    /// The Euclidean distance from this vector to `b`, computed through the
    /// dot product of the difference vector with itself.  It returns the
    /// same bits as [`Vec3::dist`]: the two formulations perform the same
    /// operations in the same order.
    pub fn dist2(self, b: Vec3) -> (r: u32)
        ensures
            r == dist3(self, b),
            is_nan(r) == dist3_nan(self, b),
    {
        let s = b.sub(self);
        let d: u32 = s.dot(&s);
        f32_sqrt(d)
    }

    /// The unit-length vector in the same direction as this one.  The
    /// reciprocal of the magnitude is taken; if it is not a finite,
    /// strictly positive number (a zero, infinite or NaN magnitude), the
    /// zero vector is returned instead of scaling, so normalizing the zero
    /// vector yields the zero vector and no infinity or NaN escapes from a
    /// degenerate input.  When the vector is scaled, every non-NaN
    /// component of the result keeps the sign of the matching input
    /// component: the result is the input times a positive scalar.
    pub fn norm(self) -> (r: Vec3)
        ensures
            !norm_scales(self) ==> r == zero3(),
            norm_scales(self) ==> r == prod3(self, splat(norm_scale(self))),
            norm_scales(self) ==> prod3_nan(self, splat(norm_scale(self)), r),
            norm_scales(self) && !is_nan(r.x) ==> sign_bit(r.x) == sign_bit(self.x),
            norm_scales(self) && !is_nan(r.y) ==> sign_bit(r.y) == sign_bit(self.y),
            norm_scales(self) && !is_nan(r.z) ==> sign_bit(r.z) == sign_bit(self.z),
            self == zero3() ==> r == zero3(),
    {
        let m: u32 = self.mag();
        let mr: u32 = f32_div(ONE_BITS, m);
        proof {
            lemma_constant_facts();
            lemma_bit_facts(mr);
        }
        if positive_and_finite(mr) {
            self.mul_scalar(mr)
        } else {
            Vec3::fill(POS_ZERO)
        }
    }

    /// Sets every component to `+0.0` in place, discarding the prior state.
    pub fn zero(&mut self)
        ensures
            *final(self) == zero3(),
    {
        self.x = POS_ZERO;
        self.y = POS_ZERO;
        self.z = POS_ZERO;
    }
}

/// Double negation restores every vector exactly, bit for bit — signed zeros
/// and NaN components included.
pub proof fn lemma_neg_neg(v: Vec3)
    ensures
        neg3(neg3(v)) == v,
{
    lemma_bit_facts(v.x);
    lemma_bit_facts(v.y);
    lemma_bit_facts(v.z);
}

} // verus!


