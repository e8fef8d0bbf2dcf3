//! 2D affine transform algebra: 3x3 matrices over homogeneous coordinates,
//! stored column-major, every entry an IEEE-754 single-precision bit pattern
//! (see the `scalar` module).
//!
//! Composition is by left-multiplication: `t.translate(..)` returns the
//! translation matrix times `t`, so that applying the operations in
//! construction order matches matrix-application order.

use crate::scalar::{
    add_bits, add_f32, div_bits, div_f32, is_finite, is_zero_val, lemma_const_classes, mul_bits,
    mul_f32, neg_f32, negated, F32_180, F32_NEG_ZERO, F32_ONE, F32_PI, F32_ZERO,
};
use vstd::prelude::*;

verus! {

/// An angle in radians, carried as a single-precision bit pattern.
#[derive(Debug, Clone, Copy)]
pub struct Rad(pub u32);

/// An angle in degrees, carried as a single-precision bit pattern.
#[derive(Debug, Clone, Copy)]
pub struct Deg(pub u32);

impl From<Deg> for Rad {
    /// `degrees * pi / 180`, each step in single precision.
    fn from(deg: Deg) -> (r: Rad) {
        Rad(div_f32(mul_f32(deg.0, F32_PI), F32_180))
    }
}

impl vstd::std_specs::convert::FromSpecImpl<Deg> for Rad {
    open spec fn obeys_from_spec() -> bool {
        true
    }

    open spec fn from_spec(deg: Deg) -> Rad {
        Rad(div_bits(mul_bits(deg.0, F32_PI), F32_180))
    }
}

impl From<Rad> for Deg {
    /// `radians * 180 / pi`, each step in single precision.
    fn from(rad: Rad) -> (r: Deg) {
        Deg(div_f32(mul_f32(rad.0, F32_180), F32_PI))
    }
}

impl vstd::std_specs::convert::FromSpecImpl<Rad> for Deg {
    open spec fn obeys_from_spec() -> bool {
        true
    }

    open spec fn from_spec(rad: Rad) -> Deg {
        Deg(div_bits(mul_bits(rad.0, F32_180), F32_PI))
    }
}

/// A 2D transform: a 3x3 matrix over homogeneous 2D coordinates, stored
/// column-major as nine single-precision bit patterns.
#[verifier::ext_equal]
#[derive(Debug, Clone, Copy, PartialEq)]
pub struct Transform(pub [u32; 9]);

/// The multiplicative identity matrix, column-major.
pub open spec fn identity_mat() -> Seq<u32> {
    seq![F32_ONE, F32_ZERO, F32_ZERO, F32_ZERO, F32_ONE, F32_ZERO, F32_ZERO, F32_ZERO, F32_ONE]
}

/// The matrix that translates by `(dx, dy)`, column-major.
pub open spec fn translation_mat(dx: u32, dy: u32) -> Seq<u32> {
    seq![F32_ONE, F32_ZERO, F32_ZERO, F32_ZERO, F32_ONE, F32_ZERO, dx, dy, F32_ONE]
}

/// The matrix that scales by `(sx, sy)`, column-major.
pub open spec fn scaling_mat(sx: u32, sy: u32) -> Seq<u32> {
    seq![sx, F32_ZERO, F32_ZERO, F32_ZERO, sy, F32_ZERO, F32_ZERO, F32_ZERO, F32_ONE]
}

/// The matrix that rotates by the angle with the given sine and cosine,
/// column-major.
pub open spec fn rotation_mat(sin: u32, cos: u32) -> Seq<u32> {
    seq![cos, sin, F32_ZERO, negated(sin), cos, F32_ZERO, F32_ZERO, F32_ZERO, F32_ONE]
}

/// One entry of a matrix product: `x0*y0 + x1*y1 + x2*y2` in single
/// precision, summed left to right.
pub open spec fn dot3(x0: u32, x1: u32, x2: u32, y0: u32, y1: u32, y2: u32) -> u32 {
    add_bits(add_bits(mul_bits(x0, y0), mul_bits(x1, y1)), mul_bits(x2, y2))
}

/// The 3x3 matrix product `x * y` over column-major entries, each entry the
/// single-precision dot product of a row of `x` with a column of `y`.
pub open spec fn mat_mul(x: Seq<u32>, y: Seq<u32>) -> Seq<u32> {
    seq![
        dot3(x[0], x[3], x[6], y[0], y[1], y[2]),
        dot3(x[1], x[4], x[7], y[0], y[1], y[2]),
        dot3(x[2], x[5], x[8], y[0], y[1], y[2]),
        dot3(x[0], x[3], x[6], y[3], y[4], y[5]),
        dot3(x[1], x[4], x[7], y[3], y[4], y[5]),
        dot3(x[2], x[5], x[8], y[3], y[4], y[5]),
        dot3(x[0], x[3], x[6], y[6], y[7], y[8]),
        dot3(x[1], x[4], x[7], y[6], y[7], y[8]),
        dot3(x[2], x[5], x[8], y[6], y[7], y[8]),
    ]
}

/// A well-behaved entry: finite and not -0.0. On matrices of such entries
/// the identity-operation laws hold bit-exactly.
pub open spec fn wf_entry(x: u32) -> bool {
    is_finite(x) && x != F32_NEG_ZERO
}

/// Every entry of the matrix is well-behaved.
pub open spec fn wf_mat(m: Seq<u32>) -> bool {
    m.len() == 9 && forall|i: int| 0 <= i < 9 ==> wf_entry(#[trigger] m[i])
}

/// A matrix that acts as the identity entrywise: ones on the diagonal and a
/// zero value (of either sign) everywhere else. The identity itself is one,
/// and so are a translation by zero and a rotation by angle zero (whose
/// lower-left entry is -0.0).
pub open spec fn pseudo_identity(m: Seq<u32>) -> bool {
    &&& m.len() == 9
    &&& m[0] == F32_ONE
    &&& m[4] == F32_ONE
    &&& m[8] == F32_ONE
    &&& is_zero_val(m[1])
    &&& is_zero_val(m[2])
    &&& is_zero_val(m[3])
    &&& is_zero_val(m[5])
    &&& is_zero_val(m[6])
    &&& is_zero_val(m[7])
}

/// A zero value is one of exactly two bit patterns.
proof fn lemma_zero_vals()
    ensures
        forall|x: u32| is_zero_val(x) ==> x == F32_ZERO || x == F32_NEG_ZERO,
{
    assert(forall|x: u32| x & 0x7fff_ffff == 0 ==> x == 0 || x == 0x8000_0000u32) by (bit_vector);
}

impl Transform {
    /// Build a transform from nine entries given in column-major order.
    pub fn col_major(t: [u32; 9]) -> (r: Self)
        ensures
            r.0@ == t@,
    {
        Transform(t)
    }

    /// Build a transform from nine entries given in row-major order,
    /// transposing into the internal column-major storage.
    pub fn row_major(t: [u32; 9]) -> (r: Self)
        ensures
            r.0@ =~= seq![t@[0], t@[3], t@[6], t@[1], t@[4], t@[7], t@[2], t@[5], t@[8]],
    {
        Transform([t[0], t[3], t[6], t[1], t[4], t[7], t[2], t[5], t[8]])
    }

    /// The multiplicative identity.
    pub fn identity() -> (r: Self)
        ensures
            r.0@ == identity_mat(),
            wf_mat(r.0@),
            pseudo_identity(r.0@),
    {
        let r = Transform(
            [F32_ONE, F32_ZERO, F32_ZERO, F32_ZERO, F32_ONE, F32_ZERO, F32_ZERO, F32_ZERO, F32_ONE],
        );
        proof {
            lemma_const_classes();
            assert(r.0@ =~= identity_mat());
        }
        r
    }

    /// Standard 3x3 matrix product in single-precision arithmetic, products
    /// and sums taken exactly as `mat_mul` states them.
    ///
    /// Multiplying by an identity-acting matrix on either side returns the
    /// other factor bit-exactly, provided that factor is well-behaved
    /// (finite entries, none -0.0).
    pub fn mul(self, rhs: Self) -> (r: Self)
        ensures
            r.0@ == mat_mul(self.0@, rhs.0@),
            pseudo_identity(rhs.0@) && wf_mat(self.0@) ==> r.0@ == self.0@,
            pseudo_identity(self.0@) && wf_mat(rhs.0@) ==> r.0@ == rhs.0@,
    {
        let x = self.0;
        let y = rhs.0;

        let z0 = add_f32(add_f32(mul_f32(x[0], y[0]), mul_f32(x[3], y[1])), mul_f32(x[6], y[2]));
        let z1 = add_f32(add_f32(mul_f32(x[1], y[0]), mul_f32(x[4], y[1])), mul_f32(x[7], y[2]));
        let z2 = add_f32(add_f32(mul_f32(x[2], y[0]), mul_f32(x[5], y[1])), mul_f32(x[8], y[2]));
        let z3 = add_f32(add_f32(mul_f32(x[0], y[3]), mul_f32(x[3], y[4])), mul_f32(x[6], y[5]));
        let z4 = add_f32(add_f32(mul_f32(x[1], y[3]), mul_f32(x[4], y[4])), mul_f32(x[7], y[5]));
        let z5 = add_f32(add_f32(mul_f32(x[2], y[3]), mul_f32(x[5], y[4])), mul_f32(x[8], y[5]));
        let z6 = add_f32(add_f32(mul_f32(x[0], y[6]), mul_f32(x[3], y[7])), mul_f32(x[6], y[8]));
        let z7 = add_f32(add_f32(mul_f32(x[1], y[6]), mul_f32(x[4], y[7])), mul_f32(x[7], y[8]));
        let z8 = add_f32(add_f32(mul_f32(x[2], y[6]), mul_f32(x[5], y[7])), mul_f32(x[8], y[8]));

        let r = Transform([z0, z1, z2, z3, z4, z5, z6, z7, z8]);
        proof {
            lemma_const_classes();
            lemma_zero_vals();
            assert(r.0@ =~= mat_mul(self.0@, rhs.0@));
            if pseudo_identity(rhs.0@) && wf_mat(self.0@) {
                assert(r.0@ =~= self.0@);
            }
            if pseudo_identity(self.0@) && wf_mat(rhs.0@) {
                assert(r.0@ =~= rhs.0@);
            }
        }
        r
    }

    /// This transform followed by a translation: the translation matrix for
    /// `offset` times `self`. Translating by `(0, 0)` returns a well-behaved
    /// transform unchanged.
    pub fn translate(self, offset: [u32; 2]) -> (r: Self)
        ensures
            r.0@ == mat_mul(translation_mat(offset@[0], offset@[1]), self.0@),
            offset@[0] == F32_ZERO && offset@[1] == F32_ZERO && wf_mat(self.0@) ==> r.0@
                == self.0@,
    {
        let m = Transform(
            [
                F32_ONE,
                F32_ZERO,
                F32_ZERO,
                F32_ZERO,
                F32_ONE,
                F32_ZERO,
                offset[0],
                offset[1],
                F32_ONE,
            ],
        );
        proof {
            lemma_const_classes();
            assert(m.0@ =~= translation_mat(offset@[0], offset@[1]));
        }
        m.mul(self)
    }

    /// This transform followed by a scaling: the scaling matrix for
    /// `scalars` times `self`. Scaling by `(1, 1)` returns a well-behaved
    /// transform unchanged.
    pub fn scale(self, scalars: [u32; 2]) -> (r: Self)
        ensures
            r.0@ == mat_mul(scaling_mat(scalars@[0], scalars@[1]), self.0@),
            scalars@[0] == F32_ONE && scalars@[1] == F32_ONE && wf_mat(self.0@) ==> r.0@
                == self.0@,
    {
        let m = Transform(
            [
                scalars[0],
                F32_ZERO,
                F32_ZERO,
                F32_ZERO,
                scalars[1],
                F32_ZERO,
                F32_ZERO,
                F32_ZERO,
                F32_ONE,
            ],
        );
        proof {
            lemma_const_classes();
            assert(m.0@ =~= scaling_mat(scalars@[0], scalars@[1]));
        }
        m.mul(self)
    }

    /// This transform followed by a rotation whose angle has the given sine
    /// and cosine (as single-precision bit patterns; computing them from an
    /// angle is the caller's unverified step). Rotating by angle zero —
    /// sine +0.0, cosine 1.0 — returns a well-behaved transform unchanged.
    pub fn rotate(self, sin: u32, cos: u32) -> (r: Self)
        ensures
            r.0@ == mat_mul(rotation_mat(sin, cos), self.0@),
            sin == F32_ZERO && cos == F32_ONE && wf_mat(self.0@) ==> r.0@ == self.0@,
    {
        let m = Transform(
            [cos, sin, F32_ZERO, neg_f32(sin), cos, F32_ZERO, F32_ZERO, F32_ZERO, F32_ONE],
        );
        proof {
            lemma_const_classes();
            assert(m.0@ =~= rotation_mat(sin, cos));
        }
        m.mul(self)
    }
}

} // verus!
