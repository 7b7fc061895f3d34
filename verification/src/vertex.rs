//! Vertices: as a mesh brings them, as the host renderer reads them, and
//! the filter that decides which of them are kept.

use vstd::prelude::*;
use vstd::arithmetic::power2::pow2;
use crate::binary32::{
    abs_lt,
    finite,
    is_abs_lt,
    is_finite,
    is_le,
    le,
    lemma_named_numbers,
    lemma_order_is_numeric,
    nan,
    scaled_magnitude,
    scaled_value,
    MINUS_HUNDRED,
    ONE,
};

verus! {

/// A colour of four channels, as a mesh vertex or a texture pixel holds it.
#[derive(Clone, Copy, Debug, PartialEq, Eq)]
pub struct Rgba {
    pub r: u8,
    pub g: u8,
    pub b: u8,
    pub a: u8,
}

impl Rgba {
    /// The four channels in one word: red in the lowest byte, then green,
    /// blue, and alpha in the highest.
    pub open spec fn packed(self) -> u32 {
        (self.r + 0x100 * self.g + 0x1_0000 * self.b + 0x100_0000 * self.a) as u32
    }

    /// Packs the four channels into one word.
    pub fn pack(self) -> (word: u32)
        ensures
            word == self.packed(),
            word % 0x100 == self.r,
            (word / 0x100) % 0x100 == self.g,
            (word / 0x1_0000) % 0x100 == self.b,
            word / 0x100_0000 == self.a,
    {
        let r: u32 = self.r as u32;
        let g: u32 = self.g as u32;
        let b: u32 = self.b as u32;
        let a: u32 = self.a as u32;
        let word: u32 = r + 0x100 * g + 0x1_0000 * b + 0x100_0000 * a;
        assert(word % 0x100 == r && (word / 0x100) % 0x100 == g && (word / 0x1_0000) % 0x100 == b
            && word / 0x100_0000 == a) by (bit_vector)
            requires
                r < 0x100,
                g < 0x100,
                b < 0x100,
                a < 0x100,
                word == r + 0x100 * g + 0x1_0000 * b + 0x100_0000 * a,
        ;
        word
    }
}

/// A vertex as a mesh brings it: position and texture coordinate as patterns
/// of single-precision numbers, and a colour.
#[derive(Clone, Copy, Debug, PartialEq, Eq)]
pub struct SourceVertex {
    pub x: u32,
    pub y: u32,
    pub u: u32,
    pub v: u32,
    pub color: Rgba,
}

/// A vertex as the host renderer reads it: position in screen space, texture
/// coordinate, both as patterns of single-precision numbers, and the colour
/// packed as [`Rgba::packed`] says.
#[derive(Clone, Copy, Debug, PartialEq, Eq)]
pub struct UIVertex {
    pub pos: [u32; 2],
    pub tex_coord: [u32; 2],
    pub color: u32,
}

/// The right and lower edge of the accepted region: the largest `x` and the
/// largest `y` a kept vertex may have, as patterns of single-precision
/// numbers. The left and upper edge are fixed at -100.
#[derive(Clone, Copy, Debug, PartialEq, Eq)]
pub struct Limits {
    pub max_x: u32,
    pub max_y: u32,
}

/// Whether a vertex is kept. Both coordinates are finite, `x` lies in
/// `[-100, max_x]` and `y` in `[-100, max_y]`, and the vertex is not a
/// fully transparent one within one unit of the origin on both axes.
pub open spec fn keeps(v: SourceVertex, limits: Limits) -> bool {
    &&& finite(v.x)
    &&& finite(v.y)
    &&& le(MINUS_HUNDRED, v.x)
    &&& le(v.x, limits.max_x)
    &&& le(MINUS_HUNDRED, v.y)
    &&& le(v.y, limits.max_y)
    &&& !(abs_lt(v.x, ONE) && abs_lt(v.y, ONE) && v.color.a == 0)
}

/// The filter in numbers. With coordinates and limits counted in steps of
/// 2^-149, a vertex is kept exactly if both coordinates are finite, `x` lies
/// between -100 and the limit for `x`, `y` between -100 and the limit for
/// `y`, and the vertex is not a fully transparent one with both coordinates
/// less than 1 away from 0.
pub proof fn lemma_keeps_in_numbers(v: SourceVertex, limits: Limits)
    requires
        !nan(limits.max_x),
        !nan(limits.max_y),
    ensures
        keeps(v, limits) <==> {
            &&& finite(v.x)
            &&& finite(v.y)
            &&& -100 * pow2(149) <= scaled_value(v.x) <= scaled_value(limits.max_x)
            &&& -100 * pow2(149) <= scaled_value(v.y) <= scaled_value(limits.max_y)
            &&& !(scaled_magnitude(v.x) < pow2(149) && scaled_magnitude(v.y) < pow2(149)
                && v.color.a == 0)
        },
{
    lemma_named_numbers();
    lemma_order_is_numeric(MINUS_HUNDRED, v.x);
    lemma_order_is_numeric(MINUS_HUNDRED, v.y);
    lemma_order_is_numeric(v.x, limits.max_x);
    lemma_order_is_numeric(v.y, limits.max_y);
    lemma_order_is_numeric(v.x, ONE);
    lemma_order_is_numeric(v.y, ONE);
}

/// The accepted region for a given size. Where the limits are the finite
/// width and height of the screen, each widened by exactly 100, a vertex is
/// kept exactly if both coordinates are finite, `x` lies between -100 and the
/// width plus 100, `y` between -100 and the height plus 100, and the vertex
/// is not a fully transparent one with both coordinates less than 1 away
/// from 0.
pub proof fn lemma_keeps_within_widened_size(
    v: SourceVertex,
    width: u32,
    height: u32,
    limits: Limits,
)
    requires
        !nan(limits.max_x),
        !nan(limits.max_y),
        scaled_value(limits.max_x) == scaled_value(width) + 100 * pow2(149),
        scaled_value(limits.max_y) == scaled_value(height) + 100 * pow2(149),
    ensures
        keeps(v, limits) <==> {
            &&& finite(v.x)
            &&& finite(v.y)
            &&& -100 * pow2(149) <= scaled_value(v.x) <= scaled_value(width) + 100 * pow2(149)
            &&& -100 * pow2(149) <= scaled_value(v.y) <= scaled_value(height) + 100 * pow2(149)
            &&& !(scaled_magnitude(v.x) < pow2(149) && scaled_magnitude(v.y) < pow2(149)
                && v.color.a == 0)
        },
{
    lemma_keeps_in_numbers(v, limits);
}

/// The vertex as the buffer holds it.
pub open spec fn exported(v: SourceVertex) -> UIVertex {
    UIVertex { pos: [v.x, v.y], tex_coord: [v.u, v.v], color: v.color.packed() }
}

/// Decides [`keeps`].
pub fn keeps_vertex(v: &SourceVertex, limits: &Limits) -> (kept: bool)
    ensures
        kept == keeps(*v, *limits),
{
    is_finite(v.x) && is_finite(v.y) && is_le(MINUS_HUNDRED, v.x) && is_le(v.x, limits.max_x)
        && is_le(MINUS_HUNDRED, v.y) && is_le(v.y, limits.max_y) && !(is_abs_lt(v.x, ONE)
        && is_abs_lt(v.y, ONE) && v.color.a == 0)
}

/// Computes [`exported`].
pub fn export_vertex(v: &SourceVertex) -> (out: UIVertex)
    ensures
        out == exported(*v),
{
    UIVertex { pos: [v.x, v.y], tex_coord: [v.u, v.v], color: v.color.pack() }
}

} // verus!
