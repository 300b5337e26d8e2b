//! The arc emitter: tessellates a circular wedge into a triangle fan anchored
//! at its center. The rim samples are precomputed positions along the arc;
//! one triangle is emitted per consecutive pair of samples, so a rim of
//! `k + 1` samples yields `k` triangles. Round joins, end caps and the
//! single-point disc all go through this one fan.

use vstd::prelude::*;

use crate::vertex::{color_uniform, push_tri, tri_seq, Color, Point, Scalar};
use crate::vertex::{lemma_color_uniform_concat, lemma_tri_color_uniform};

verus! {

/// Fixed number of triangles of the disc fan emitted for a single-point
/// stroke (its rim carries one more sample than triangles).
pub const DISC_STEPS: usize = 24;

/// A join fan is tessellated with at least this many triangles.
pub const JOIN_MIN_STEPS: usize = 4;

/// An end-cap fan is tessellated with at least this many triangles, finer
/// than a join because a cap always spans a half turn.
pub const CAP_MIN_STEPS: usize = 6;

/// A circular wedge to fill: the fan anchor and the rim samples along the arc.
#[derive(Clone, Debug)]
pub struct FanGeometry {
    pub center: Point,
    pub rim: Vec<Point>,
}

/// The scalars of a triangle fan: one triangle from the center to each
/// consecutive pair of rim samples. Fewer than two samples yield nothing.
pub open spec fn fan_seq(center: Point, rim: Seq<Point>, c: Color) -> Seq<Scalar>
    decreases rim.len(),
{
    if rim.len() < 2 {
        Seq::empty()
    } else {
        tri_seq(center, rim[0], rim[1], c) + fan_seq(center, rim.skip(1), c)
    }
}

/// Splitting a fan after its first `s` triangles.
pub proof fn lemma_fan_seq_step(center: Point, rim: Seq<Point>, c: Color, s: int)
    requires
        0 <= s,
        s + 1 < rim.len(),
    ensures
        fan_seq(center, rim.skip(s), c) == tri_seq(center, rim[s], rim[s + 1], c) + fan_seq(
            center,
            rim.skip(s + 1),
            c,
        ),
{
    assert(rim.skip(s).len() == rim.len() - s);
    assert(rim.skip(s)[0] == rim[s]);
    assert(rim.skip(s)[1] == rim[s + 1]);
    assert(rim.skip(s).skip(1) =~= rim.skip(s + 1));
}

/// A fan of `k + 1` rim samples is exactly `k` triangles of 18 scalars each.
pub proof fn lemma_fan_seq_len(center: Point, rim: Seq<Point>, c: Color)
    ensures
        fan_seq(center, rim, c).len() == (if rim.len() < 2 {
            0int
        } else {
            18 * (rim.len() - 1)
        }),
    decreases rim.len(),
{
    if rim.len() >= 2 {
        lemma_fan_seq_len(center, rim.skip(1), c);
    }
}

/// Every vertex of a fan carries the fan's color.
pub proof fn lemma_fan_color_uniform(center: Point, rim: Seq<Point>, c: Color)
    ensures
        color_uniform(fan_seq(center, rim, c), c),
    decreases rim.len(),
{
    if rim.len() >= 2 {
        lemma_tri_color_uniform(center, rim[0], rim[1], c);
        lemma_fan_color_uniform(center, rim.skip(1), c);
        lemma_color_uniform_concat(
            tri_seq(center, rim[0], rim[1], c),
            fan_seq(center, rim.skip(1), c),
            c,
        );
    }
}

/// Appends the triangle fan over the given rim, anchored at `center`.
pub fn emit_fan(out: &mut Vec<Scalar>, center: Point, rim: &Vec<Point>, c: Color)
    ensures
        final(out)@ == old(out)@ + fan_seq(center, rim@, c),
{
    let n = rim.len();
    let tris: usize = if n == 0 {
        0
    } else {
        n - 1
    };
    proof {
        assert(rim@.skip(0) =~= rim@);
    }
    let mut s: usize = 0;
    while s < tris
        invariant
            tris + 1 == rim@.len() || (tris == 0 && rim@.len() == 0),
            0 <= s <= tris,
            out@ + fan_seq(center, rim@.skip(s as int), c) == old(out)@ + fan_seq(
                center,
                rim@,
                c,
            ),
        decreases tris - s,
    {
        let a = rim[s];
        let b = rim[s + 1];
        proof {
            lemma_fan_seq_step(center, rim@, c, s as int);
        }
        let ghost pre = out@;
        push_tri(out, center, a, b, c);
        proof {
            assert(out@ + fan_seq(center, rim@.skip(s as int + 1), c) =~= pre + (tri_seq(
                center,
                rim@[s as int],
                rim@[s as int + 1],
                c,
            ) + fan_seq(center, rim@.skip(s as int + 1), c)));
        }
        s = s + 1;
    }
    proof {
        assert(fan_seq(center, rim@.skip(s as int), c) =~= Seq::<Scalar>::empty());
        assert(out@ =~= out@ + Seq::<Scalar>::empty());
        assert(rim@.skip(0) =~= rim@);
    }
}

/// The number of triangles used to tessellate an arc: the count the angular
/// step bound asks for, floored at the emitter's minimum.
pub fn arc_step_count(raw: usize, min_steps: usize) -> (steps: usize)
    ensures
        steps == (if raw >= min_steps {
            raw as int
        } else {
            min_steps as int
        }),
{
    if raw >= min_steps {
        raw
    } else {
        min_steps
    }
}

} // verus!
