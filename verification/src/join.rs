//! The join resolver: the single shared decision for each interior point of a
//! stroke. A corner is mitered (both edge offsets meet at one point on the
//! bisector) unless the two segment normals nearly cancel or the miter length
//! exceeds the miter limit of four radii, in which case the corner is rounded
//! and the gap between the independently offset edges is later filled by a
//! triangle fan. The decision is made once and threaded through both the quad
//! emission and the join-fan emission, so quads and fans never gap or overlap.

use vstd::prelude::*;

use crate::vertex::Point;

verus! {

/// How an interior point of the stroke is joined.
#[derive(Clone, Copy, PartialEq, Eq, Structural, Debug)]
pub enum JoinKind {
    /// Both edge offsets meet at a single miter point.
    Miter,
    /// The edge offsets stay apart; a round fan fills the wedge.
    Round,
}

/// The left and right offsets of the centerline at one point.
#[derive(Clone, Copy, PartialEq, Eq, Structural, Debug)]
pub struct OffsetPair {
    pub left: Point,
    pub right: Point,
}

/// The resolved geometry of one centerline point: the offsets used by the
/// incoming segment (`prev`), the offsets used by the outgoing segment
/// (`next`), and the join classification that chose them.
#[derive(Clone, Copy, PartialEq, Eq, Structural, Debug)]
pub struct JoinOffsets {
    pub prev: OffsetPair,
    pub next: OffsetPair,
    pub kind: JoinKind,
}

/// Offsets of an endpoint, or of any point with a single governing normal:
/// one offset pair serves both sides, and no fan is ever emitted for it.
pub fn plain_offsets(offsets: OffsetPair) -> (j: JoinOffsets)
    ensures
        j == (JoinOffsets { prev: offsets, next: offsets, kind: JoinKind::Miter }),
{
    JoinOffsets { prev: offsets, next: offsets, kind: JoinKind::Miter }
}

/// Classifies one interior point and selects its offsets.
///
/// `sum_degenerate` holds when the magnitude of the summed segment normals is
/// below the degeneracy threshold (the segments nearly reverse direction);
/// `within_limit` holds when the computed miter length is within the miter
/// limit of four radii. The point is mitered exactly when the normal sum is
/// usable and the miter is within limit; in every other case it is round, and
/// the incoming and outgoing offsets stay independent.
pub fn resolve_join(
    sum_degenerate: bool,
    within_limit: bool,
    miter: OffsetPair,
    round_prev: OffsetPair,
    round_next: OffsetPair,
) -> (j: JoinOffsets)
    ensures
        j.kind == (if !sum_degenerate && within_limit {
            JoinKind::Miter
        } else {
            JoinKind::Round
        }),
        j.kind is Miter <==> !sum_degenerate && within_limit,
        j.kind is Miter ==> j.prev == miter && j.next == miter,
        j.kind is Round ==> j.prev == round_prev && j.next == round_next,
{
    if !sum_degenerate && within_limit {
        JoinOffsets { prev: miter, next: miter, kind: JoinKind::Miter }
    } else {
        JoinOffsets { prev: round_prev, next: round_next, kind: JoinKind::Round }
    }
}

} // verus!
