//! The orthographic screen projection: maps the viewport rectangle
//! `[0,width] x [0,height]` (origin top-left, Y growing downward, as window
//! coordinates do) onto the clip-space cube `[-1,1]^3`, flipping Y because
//! clip-space Y grows upward. The matrix must always reflect the current
//! viewport: it is recomputed on every resize, and its bytes re-uploaded
//! before the next draw.

use crate::bytes::{le4, push_le4};
use crate::scalar::{
    add_bits, add_f32, div_bits, div_f32, neg_f32, negated, single_of_u32, sub_bits, sub_f32,
    u32_to_f32, F32_ONE, F32_TWO, F32_ZERO,
};
use vstd::prelude::*;

verus! {

/// The sixteen column-major entries of the orthographic matrix for a
/// `width` by `height` viewport, each step in single precision exactly as
/// the construction performs it: with `l = 0`, `r = width`, `t = 0`,
/// `b = height`, the X scale is `2/(r-l)`, the Y scale `2/(t-b)` (negative:
/// the Y flip), and the translation entries `-(r+l)/(r-l)` and
/// `-(t+b)/(t-b)` center the rectangle.
pub open spec fn ortho_mat(width: u32, height: u32) -> Seq<u32> {
    let fw = single_of_u32(width);
    let fh = single_of_u32(height);
    seq![
        div_bits(F32_TWO, sub_bits(fw, F32_ZERO)),
        F32_ZERO,
        F32_ZERO,
        F32_ZERO,
        F32_ZERO,
        div_bits(F32_TWO, sub_bits(F32_ZERO, fh)),
        F32_ZERO,
        F32_ZERO,
        F32_ZERO,
        F32_ZERO,
        F32_ONE,
        F32_ZERO,
        div_bits(negated(add_bits(fw, F32_ZERO)), sub_bits(fw, F32_ZERO)),
        div_bits(negated(add_bits(F32_ZERO, fh)), sub_bits(F32_ZERO, fh)),
        F32_ZERO,
        F32_ONE,
    ]
}

/// The concatenated little-endian bytes of a word sequence.
pub open spec fn words_le(s: Seq<u32>) -> Seq<u8>
    decreases s.len(),
{
    if s.len() == 0 {
        Seq::empty()
    } else {
        words_le(s.drop_last()) + le4(s.last())
    }
}

/// Each word serializes to four bytes.
pub proof fn lemma_words_le_len(s: Seq<u32>)
    ensures
        words_le(s).len() == 4 * s.len(),
    decreases s.len(),
{
    if s.len() > 0 {
        lemma_words_le_len(s.drop_last());
    }
}

/// The orthographic projection: a 4x4 matrix that always reflects the
/// current viewport. It assumes positive dimensions; rejecting a degenerate
/// viewport is the renderer's job.
#[derive(Debug)]
pub struct Projection {
    pub width: u32,
    pub height: u32,
    pub data: [u32; 16],
}

impl Projection {
    /// The matrix reflects the held viewport, which is non-degenerate.
    pub open spec fn wf(self) -> bool {
        &&& self.width >= 1
        &&& self.height >= 1
        &&& self.data@ == ortho_mat(self.width, self.height)
    }

    /// Compute the orthographic matrix for the given viewport.
    fn create_projection_matrix(width: u32, height: u32) -> (r: [u32; 16])
        ensures
            r@ == ortho_mat(width, height),
    {
        let fw = u32_to_f32(width);
        let fh = u32_to_f32(height);
        let sx = div_f32(F32_TWO, sub_f32(fw, F32_ZERO));
        let sy = div_f32(F32_TWO, sub_f32(F32_ZERO, fh));
        let tx = div_f32(neg_f32(add_f32(fw, F32_ZERO)), sub_f32(fw, F32_ZERO));
        let ty = div_f32(neg_f32(add_f32(F32_ZERO, fh)), sub_f32(F32_ZERO, fh));
        let r: [u32; 16] = [
            sx,
            F32_ZERO,
            F32_ZERO,
            F32_ZERO,
            F32_ZERO,
            sy,
            F32_ZERO,
            F32_ZERO,
            F32_ZERO,
            F32_ZERO,
            F32_ONE,
            F32_ZERO,
            tx,
            ty,
            F32_ZERO,
            F32_ONE,
        ];
        proof {
            assert(r@ =~= ortho_mat(width, height));
        }
        r
    }

    /// Build the projection for a non-degenerate viewport.
    pub fn new(width: u32, height: u32) -> (r: Self)
        requires
            width >= 1,
            height >= 1,
        ensures
            r.wf(),
            r.width == width,
            r.height == height,
    {
        Projection { width, height, data: Self::create_projection_matrix(width, height) }
    }

    /// Recompute the matrix for a new non-degenerate viewport. The caller
    /// must re-upload `bytes()` before the next draw.
    pub fn resize(&mut self, width: u32, height: u32)
        requires
            width >= 1,
            height >= 1,
        ensures
            final(self).wf(),
            final(self).width == width,
            final(self).height == height,
    {
        self.width = width;
        self.height = height;
        self.data = Self::create_projection_matrix(width, height);
    }

    /// The matrix as the 64 little-endian bytes the uniform buffer holds.
    pub fn bytes(&self) -> (r: Vec<u8>)
        ensures
            r@ == words_le(self.data@),
            r@.len() == 64,
    {
        let mut out: Vec<u8> = Vec::new();
        for i in 0..16usize
            invariant
                out@ == words_le(self.data@.take(i as int)),
        {
            push_le4(&mut out, self.data[i]);
            proof {
                let taken = self.data@.take(i + 1);
                assert(taken.drop_last() =~= self.data@.take(i as int));
                assert(out@ =~= words_le(taken));
            }
        }
        proof {
            assert(self.data@.take(16int) =~= self.data@);
            lemma_words_le_len(self.data@);
        }
        out
    }
}

} // verus!
