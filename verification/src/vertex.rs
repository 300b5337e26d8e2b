//! The vertex/triangle sink: appends interleaved position+color attributes to
//! the flat output buffer in fixed order, six scalars per vertex.

use vstd::prelude::*;

verus! {

/// A scalar attribute of the mesh: the raw bit pattern of an IEEE 754
/// binary32 number. The tessellation logic never computes with scalars; it
/// decides, selects and copies them, so the bits the caller supplies are the
/// bits that come back out.
pub type Scalar = u32;

/// Bit pattern of the binary32 number one, the default alpha channel and the
/// default stroke diameter.
pub const ONE_BITS: Scalar = 0x3F80_0000;

/// A 2D position.
#[derive(Clone, Copy, PartialEq, Eq, Structural, Debug)]
pub struct Point {
    pub x: Scalar,
    pub y: Scalar,
}

/// An RGBA color, shared by every vertex of the mesh.
#[derive(Clone, Copy, PartialEq, Eq, Structural, Debug)]
pub struct Color {
    pub r: Scalar,
    pub g: Scalar,
    pub b: Scalar,
    pub a: Scalar,
}

/// The six scalars of one vertex, in fixed attribute order.
pub open spec fn vertex_seq(p: Point, c: Color) -> Seq<Scalar> {
    seq![p.x, p.y, c.r, c.g, c.b, c.a]
}

/// The eighteen scalars of one triangle: its vertices in caller order.
pub open spec fn tri_seq(a: Point, b: Point, c: Point, col: Color) -> Seq<Scalar> {
    vertex_seq(a, col) + vertex_seq(b, col) + vertex_seq(c, col)
}

/// Appends one vertex: position, then the four color channels.
pub fn push_vertex(out: &mut Vec<Scalar>, p: Point, c: Color)
    ensures
        final(out)@ == old(out)@ + vertex_seq(p, c),
{
    out.push(p.x);
    out.push(p.y);
    out.push(c.r);
    out.push(c.g);
    out.push(c.b);
    out.push(c.a);
    proof {
        assert(out@ =~= old(out)@ + vertex_seq(p, c));
    }
}

/// Appends one triangle as three fully expanded vertices, in caller order.
pub fn push_tri(out: &mut Vec<Scalar>, a: Point, b: Point, c: Point, col: Color)
    ensures
        final(out)@ == old(out)@ + tri_seq(a, b, c, col),
{
    push_vertex(out, a, col);
    push_vertex(out, b, col);
    push_vertex(out, c, col);
    proof {
        assert(out@ =~= old(out)@ + tri_seq(a, b, c, col));
    }
}

/// The channel at index `i` of a color array, or the stated default where the
/// array is too short.
pub open spec fn channel_or(channels: Seq<Scalar>, i: int, default: Scalar) -> Scalar {
    if 0 <= i < channels.len() {
        channels[i]
    } else {
        default
    }
}

/// Resolves an RGBA color from a possibly short channel array: missing
/// r, g, b channels default to zero, a missing alpha channel defaults to one.
pub fn resolve_color(channels: &Vec<Scalar>) -> (c: Color)
    ensures
        c.r == channel_or(channels@, 0, 0),
        c.g == channel_or(channels@, 1, 0),
        c.b == channel_or(channels@, 2, 0),
        c.a == channel_or(channels@, 3, ONE_BITS),
{
    let r: Scalar = if channels.len() > 0 { channels[0] } else { 0 };
    let g: Scalar = if channels.len() > 1 { channels[1] } else { 0 };
    let b: Scalar = if channels.len() > 2 { channels[2] } else { 0 };
    let a: Scalar = if channels.len() > 3 { channels[3] } else { ONE_BITS };
    Color { r, g, b, a }
}

/// The stroke diameter at point `i`: the entry of the width array where one
/// exists, otherwise the default diameter of one.
pub fn stroke_width_at(widths: &Vec<Scalar>, i: usize) -> (w: Scalar)
    ensures
        w == channel_or(widths@, i as int, ONE_BITS),
{
    if i < widths.len() {
        widths[i]
    } else {
        ONE_BITS
    }
}

/// Holds of a buffer that is a whole number of vertices, each of whose four
/// color channels equal `c`. The positions (the first two scalars of each
/// vertex) are unconstrained.
pub open spec fn color_uniform(s: Seq<Scalar>, c: Color) -> bool
    decreases s.len(),
{
    if s.len() == 0 {
        true
    } else if s.len() < 6 {
        false
    } else {
        s[2] == c.r && s[3] == c.g && s[4] == c.b && s[5] == c.a && color_uniform(s.skip(6), c)
    }
}

pub proof fn lemma_vertex_color_uniform(p: Point, c: Color)
    ensures
        color_uniform(vertex_seq(p, c), c),
{
    let s = vertex_seq(p, c);
    assert(s.len() == 6);
    assert(s[2] == c.r);
    assert(s[3] == c.g);
    assert(s[4] == c.b);
    assert(s[5] == c.a);
    assert(s.skip(6) =~= Seq::<Scalar>::empty());
    assert(color_uniform(s.skip(6), c));
    assert(color_uniform(s, c)) by {
        reveal_with_fuel(color_uniform, 2);
    }
}

/// Color uniformity is preserved by concatenation of whole-vertex buffers.
pub proof fn lemma_color_uniform_concat(s1: Seq<Scalar>, s2: Seq<Scalar>, c: Color)
    requires
        color_uniform(s1, c),
        color_uniform(s2, c),
    ensures
        color_uniform(s1 + s2, c),
    decreases s1.len(),
{
    if s1.len() == 0 {
        assert(s1 + s2 =~= s2);
    } else {
        lemma_color_uniform_concat(s1.skip(6), s2, c);
        assert((s1 + s2).skip(6) =~= s1.skip(6) + s2);
    }
}

pub proof fn lemma_tri_color_uniform(a: Point, b: Point, cp: Point, col: Color)
    ensures
        color_uniform(tri_seq(a, b, cp, col), col),
{
    lemma_vertex_color_uniform(a, col);
    lemma_vertex_color_uniform(b, col);
    lemma_vertex_color_uniform(cp, col);
    lemma_color_uniform_concat(vertex_seq(a, col), vertex_seq(b, col), col);
    lemma_color_uniform_concat(
        vertex_seq(a, col) + vertex_seq(b, col),
        vertex_seq(cp, col),
        col,
    );
}

/// A color-uniform buffer is a whole number of vertices.
pub proof fn lemma_color_uniform_len(s: Seq<Scalar>, c: Color)
    requires
        color_uniform(s, c),
    ensures
        s.len() % 6 == 0,
    decreases s.len(),
{
    if s.len() != 0 {
        lemma_color_uniform_len(s.skip(6), c);
    }
}

/// In a color-uniform buffer, the scalar at every index whose position within
/// its vertex is a color channel equals the corresponding channel of `c`.
pub proof fn lemma_color_uniform_index(s: Seq<Scalar>, c: Color)
    requires
        color_uniform(s, c),
    ensures
        forall|j: int| 0 <= j < s.len() && j % 6 == 2 ==> #[trigger] s[j] == c.r,
        forall|j: int| 0 <= j < s.len() && j % 6 == 3 ==> #[trigger] s[j] == c.g,
        forall|j: int| 0 <= j < s.len() && j % 6 == 4 ==> #[trigger] s[j] == c.b,
        forall|j: int| 0 <= j < s.len() && j % 6 == 5 ==> #[trigger] s[j] == c.a,
    decreases s.len(),
{
    if s.len() != 0 {
        lemma_color_uniform_index(s.skip(6), c);
        assert forall|j: int| 6 <= j < s.len() implies #[trigger] s[j] == s.skip(6)[j - 6] by {
        }
    }
}

} // verus!
