//! The mesh builder: assembles the full triangle list of a stroke. Segment
//! quads come first, one per segment, connecting a segment's starting `next`
//! offsets to its ending `prev` offsets; then one join fan per round interior
//! point; then the two end caps. A single-point stroke is a disc fan, an
//! empty stroke is an empty mesh.

use vstd::prelude::*;

use crate::fan::{emit_fan, fan_seq, FanGeometry, DISC_STEPS};
use crate::fan::{lemma_fan_color_uniform, lemma_fan_seq_len};
use crate::join::{JoinKind, JoinOffsets};
use crate::vertex::{color_uniform, push_tri, tri_seq, Color, Point, Scalar};
use crate::vertex::{
    lemma_color_uniform_concat,
    lemma_color_uniform_index,
    lemma_tri_color_uniform,
};

verus! {

/// Everything the mesh builder needs to know about one centerline point: the
/// point itself (the anchor of its join fan), its resolved offsets and join
/// classification, and the rim samples of its join fan. The rim is consulted
/// only when the point is classified round; endpoints and mitered points
/// carry an empty rim.
#[derive(Clone, Debug)]
pub struct PointGeometry {
    pub center: Point,
    pub offsets: JoinOffsets,
    pub fan_rim: Vec<Point>,
}

/// The shape a stroke tessellates to, decided by its point count alone.
#[derive(Clone, Debug)]
pub enum Shape {
    /// No points: no geometry.
    Empty,
    /// A single point: a full-turn disc fan.
    Disc { disc: FanGeometry },
    /// Two or more points: segment quads, join fans and two end caps.
    Path { points: Vec<PointGeometry>, start_cap: FanGeometry, end_cap: FanGeometry },
}

/// A fully resolved tessellation plan: the shape and the one color shared by
/// every vertex of the mesh.
#[derive(Clone, Debug)]
pub struct MeshPlan {
    pub color: Color,
    pub shape: Shape,
}

/// The scalars of the quad of the segment from point `p0` to point `p1`: two
/// triangles spanning the segment's starting `next` offsets and its ending
/// `prev` offsets.
pub open spec fn quad_seq(p0: PointGeometry, p1: PointGeometry, c: Color) -> Seq<Scalar> {
    tri_seq(p0.offsets.next.left, p0.offsets.next.right, p1.offsets.prev.right, c) + tri_seq(
        p0.offsets.next.left,
        p1.offsets.prev.right,
        p1.offsets.prev.left,
        c,
    )
}

/// The scalars of all segment quads from segment `i` on.
pub open spec fn quads_from(pts: Seq<PointGeometry>, c: Color, i: int) -> Seq<Scalar>
    decreases pts.len() - i,
{
    if i < 0 || i + 1 >= pts.len() {
        Seq::empty()
    } else {
        quad_seq(pts[i], pts[i + 1], c) + quads_from(pts, c, i + 1)
    }
}

/// The scalars one interior point contributes to the join pass: its fan if it
/// is classified round, nothing if it is mitered.
pub open spec fn join_seq(p: PointGeometry, c: Color) -> Seq<Scalar> {
    if p.offsets.kind is Round {
        fan_seq(p.center, p.fan_rim@, c)
    } else {
        Seq::empty()
    }
}

/// The scalars of all join fans of interior points from point `i` on.
pub open spec fn joins_from(pts: Seq<PointGeometry>, c: Color, i: int) -> Seq<Scalar>
    decreases pts.len() - i,
{
    if i < 1 || i + 1 >= pts.len() {
        Seq::empty()
    } else {
        join_seq(pts[i], c) + joins_from(pts, c, i + 1)
    }
}

/// The scalars of a whole multi-point stroke: quads, then join fans, then the
/// start cap, then the end cap.
pub open spec fn path_seq(
    pts: Seq<PointGeometry>,
    start_cap: FanGeometry,
    end_cap: FanGeometry,
    c: Color,
) -> Seq<Scalar> {
    quads_from(pts, c, 0) + joins_from(pts, c, 1) + fan_seq(start_cap.center, start_cap.rim@, c)
        + fan_seq(end_cap.center, end_cap.rim@, c)
}

/// The scalars of the whole mesh of a plan.
pub open spec fn mesh_seq(plan: MeshPlan) -> Seq<Scalar> {
    match plan.shape {
        Shape::Empty => Seq::empty(),
        Shape::Disc { disc } => fan_seq(disc.center, disc.rim@, plan.color),
        Shape::Path { points, start_cap, end_cap } => path_seq(
            points@,
            start_cap,
            end_cap,
            plan.color,
        ),
    }
}

/// Appends the quad of every segment, in segment order.
pub fn emit_quads(out: &mut Vec<Scalar>, points: &Vec<PointGeometry>, c: Color)
    ensures
        final(out)@ == old(out)@ + quads_from(points@, c, 0),
{
    let n = points.len();
    let segs: usize = if n == 0 {
        0
    } else {
        n - 1
    };
    let mut i: usize = 0;
    while i < segs
        invariant
            segs == if points@.len() == 0 {
                0int
            } else {
                points@.len() - 1
            },
            0 <= i <= segs,
            out@ + quads_from(points@, c, i as int) == old(out)@ + quads_from(points@, c, 0),
        decreases segs - i,
    {
        let l0 = points[i].offsets.next.left;
        let r0 = points[i].offsets.next.right;
        let l1 = points[i + 1].offsets.prev.left;
        let r1 = points[i + 1].offsets.prev.right;
        let ghost pre = out@;
        push_tri(out, l0, r0, r1, c);
        push_tri(out, l0, r1, l1, c);
        proof {
            assert(out@ + quads_from(points@, c, i as int + 1) =~= pre + (quad_seq(
                points@[i as int],
                points@[i as int + 1],
                c,
            ) + quads_from(points@, c, i as int + 1)));
        }
        i = i + 1;
    }
    proof {
        assert(quads_from(points@, c, i as int) =~= Seq::<Scalar>::empty());
        assert(out@ =~= out@ + Seq::<Scalar>::empty());
    }
}

/// Appends the join fan of every round interior point, in point order.
/// Mitered points, and both endpoints, contribute nothing.
pub fn emit_joins(out: &mut Vec<Scalar>, points: &Vec<PointGeometry>, c: Color)
    ensures
        final(out)@ == old(out)@ + joins_from(points@, c, 1),
{
    let n = points.len();
    let segs: usize = if n == 0 {
        0
    } else {
        n - 1
    };
    let mut i: usize = 1;
    while i < segs
        invariant
            segs == if points@.len() == 0 {
                0int
            } else {
                points@.len() - 1
            },
            1 <= i,
            i <= segs || i == 1,
            out@ + joins_from(points@, c, i as int) == old(out)@ + joins_from(points@, c, 1),
        decreases segs - i,
    {
        let ghost pre = out@;
        match points[i].offsets.kind {
            JoinKind::Round => {
                let center = points[i].center;
                emit_fan(out, center, &points[i].fan_rim, c);
            },
            JoinKind::Miter => {
                proof {
                    assert(out@ =~= out@ + join_seq(points@[i as int], c));
                }
            },
        }
        proof {
            assert(out@ + joins_from(points@, c, i as int + 1) =~= pre + (join_seq(
                points@[i as int],
                c,
            ) + joins_from(points@, c, i as int + 1)));
        }
        i = i + 1;
    }
    proof {
        assert(joins_from(points@, c, i as int) =~= Seq::<Scalar>::empty());
        assert(out@ =~= out@ + Seq::<Scalar>::empty());
    }
}

/// Builds the full mesh of a plan: a flat triangle list whose every vertex is
/// six scalars, position then color. The output is pinned exactly by the
/// plan, so equal plans give bit-identical meshes.
pub fn assemble_mesh(plan: &MeshPlan) -> (out: Vec<Scalar>)
    ensures
        out@ == mesh_seq(*plan),
        out@.len() % 6 == 0,
        out@.len() % 18 == 0,
        plan.shape is Empty ==> out@.len() == 0,
{
    let mut out: Vec<Scalar> = Vec::new();
    match &plan.shape {
        Shape::Empty => {},
        Shape::Disc { disc } => {
            emit_fan(&mut out, disc.center, &disc.rim, plan.color);
        },
        Shape::Path { points, start_cap, end_cap } => {
            emit_quads(&mut out, points, plan.color);
            emit_joins(&mut out, points, plan.color);
            emit_fan(&mut out, start_cap.center, &start_cap.rim, plan.color);
            emit_fan(&mut out, end_cap.center, &end_cap.rim, plan.color);
            proof {
                assert(out@ =~= path_seq(points@, *start_cap, *end_cap, plan.color));
            }
        },
    }
    proof {
        lemma_mesh_len(*plan);
    }
    out
}

/// Every join fan contributes a whole number of triangles.
proof fn lemma_joins_from_mod(pts: Seq<PointGeometry>, c: Color, i: int)
    ensures
        joins_from(pts, c, i).len() % 18 == 0,
    decreases pts.len() - i,
{
    if !(i < 1 || i + 1 >= pts.len()) {
        let p = pts[i];
        if p.offsets.kind is Round {
            lemma_fan_seq_len(p.center, p.fan_rim@, c);
        }
        lemma_joins_from_mod(pts, c, i + 1);
    }
}

/// The segment quads from segment `i` on are exactly two triangles per
/// remaining segment.
pub proof fn lemma_quads_from_len(pts: Seq<PointGeometry>, c: Color, i: int)
    ensures
        quads_from(pts, c, i).len() == (if i < 0 || i + 1 >= pts.len() {
            0int
        } else {
            36 * (pts.len() - 1 - i)
        }),
    decreases pts.len() - i,
{
    if !(i < 0 || i + 1 >= pts.len()) {
        lemma_quads_from_len(pts, c, i + 1);
    }
}

/// Every vertex of the mesh carries the plan's color: the mesh is a whole
/// number of vertices, and in each one the scalars after the position equal
/// the four channels of `plan.color`. In particular the alpha channel of the
/// input reaches every emitted vertex unchanged.
pub proof fn lemma_mesh_color(plan: MeshPlan)
    ensures
        color_uniform(mesh_seq(plan), plan.color),
        forall|j: int|
            0 <= j < mesh_seq(plan).len() && j % 6 == 5 ==> #[trigger] mesh_seq(plan)[j]
                == plan.color.a,
{
    let c = plan.color;
    match plan.shape {
        Shape::Empty => {},
        Shape::Disc { disc } => {
            lemma_fan_color_uniform(disc.center, disc.rim@, c);
        },
        Shape::Path { points, start_cap, end_cap } => {
            lemma_quads_color_uniform(points@, c, 0);
            lemma_joins_color_uniform(points@, c, 1);
            lemma_fan_color_uniform(start_cap.center, start_cap.rim@, c);
            lemma_fan_color_uniform(end_cap.center, end_cap.rim@, c);
            lemma_color_uniform_concat(quads_from(points@, c, 0), joins_from(points@, c, 1), c);
            lemma_color_uniform_concat(
                quads_from(points@, c, 0) + joins_from(points@, c, 1),
                fan_seq(start_cap.center, start_cap.rim@, c),
                c,
            );
            lemma_color_uniform_concat(
                quads_from(points@, c, 0) + joins_from(points@, c, 1) + fan_seq(
                    start_cap.center,
                    start_cap.rim@,
                    c,
                ),
                fan_seq(end_cap.center, end_cap.rim@, c),
                c,
            );
        },
    }
    lemma_color_uniform_index(mesh_seq(plan), c);
}

proof fn lemma_quads_color_uniform(pts: Seq<PointGeometry>, c: Color, i: int)
    ensures
        color_uniform(quads_from(pts, c, i), c),
    decreases pts.len() - i,
{
    if !(i < 0 || i + 1 >= pts.len()) {
        let p0 = pts[i];
        let p1 = pts[i + 1];
        lemma_tri_color_uniform(p0.offsets.next.left, p0.offsets.next.right, p1.offsets.prev.right, c);
        lemma_tri_color_uniform(p0.offsets.next.left, p1.offsets.prev.right, p1.offsets.prev.left, c);
        lemma_color_uniform_concat(
            tri_seq(p0.offsets.next.left, p0.offsets.next.right, p1.offsets.prev.right, c),
            tri_seq(p0.offsets.next.left, p1.offsets.prev.right, p1.offsets.prev.left, c),
            c,
        );
        lemma_quads_color_uniform(pts, c, i + 1);
        lemma_color_uniform_concat(quad_seq(p0, p1, c), quads_from(pts, c, i + 1), c);
    }
}

proof fn lemma_joins_color_uniform(pts: Seq<PointGeometry>, c: Color, i: int)
    ensures
        color_uniform(joins_from(pts, c, i), c),
    decreases pts.len() - i,
{
    if !(i < 1 || i + 1 >= pts.len()) {
        let p = pts[i];
        if p.offsets.kind is Round {
            lemma_fan_color_uniform(p.center, p.fan_rim@, c);
        }
        lemma_joins_color_uniform(pts, c, i + 1);
        lemma_color_uniform_concat(join_seq(p, c), joins_from(pts, c, i + 1), c);
    }
}

/// The mesh is a whole number of triangles of six-scalar vertices: its length
/// is a multiple of 18, hence of 6; an empty stroke yields an empty mesh.
pub proof fn lemma_mesh_len(plan: MeshPlan)
    ensures
        mesh_seq(plan).len() % 6 == 0,
        mesh_seq(plan).len() % 18 == 0,
        plan.shape is Empty ==> mesh_seq(plan).len() == 0,
{
    let c = plan.color;
    match plan.shape {
        Shape::Empty => {},
        Shape::Disc { disc } => {
            lemma_fan_seq_len(disc.center, disc.rim@, c);
        },
        Shape::Path { points, start_cap, end_cap } => {
            lemma_quads_from_len(points@, c, 0);
            lemma_joins_from_mod(points@, c, 1);
            lemma_fan_seq_len(start_cap.center, start_cap.rim@, c);
            lemma_fan_seq_len(end_cap.center, end_cap.rim@, c);
        },
    }
}

/// A single-point stroke tessellates to the fixed disc fan: with its rim of
/// one sample more than `DISC_STEPS`, the mesh is exactly 24 triangles, that
/// is 72 vertices of 6 scalars.
pub proof fn lemma_disc_mesh_len(plan: MeshPlan)
    requires
        plan.shape matches Shape::Disc { disc } && disc.rim@.len() == DISC_STEPS + 1,
    ensures
        mesh_seq(plan).len() == 432,
{
    match plan.shape {
        Shape::Disc { disc } => {
            lemma_fan_seq_len(disc.center, disc.rim@, plan.color);
        },
        _ => {},
    }
}

/// Determinism: the mesh is a function of the plan alone, so identical inputs
/// yield bit-identical output.
pub proof fn lemma_mesh_deterministic(p: MeshPlan, q: MeshPlan)
    requires
        p == q,
    ensures
        mesh_seq(p) == mesh_seq(q),
{
}

/// A stroke whose interior points are all mitered emits no join fan at all:
/// its mesh is exactly the segment quads followed by the two end caps.
pub proof fn lemma_miter_only_mesh(
    pts: Seq<PointGeometry>,
    start_cap: FanGeometry,
    end_cap: FanGeometry,
    c: Color,
)
    requires
        forall|i: int| 1 <= i && i + 1 < pts.len() ==> (#[trigger] pts[i]).offsets.kind is Miter,
    ensures
        joins_from(pts, c, 1) == Seq::<Scalar>::empty(),
        path_seq(pts, start_cap, end_cap, c) == quads_from(pts, c, 0) + fan_seq(
            start_cap.center,
            start_cap.rim@,
            c,
        ) + fan_seq(end_cap.center, end_cap.rim@, c),
{
    lemma_joins_from_all_miter(pts, c, 1);
    assert(path_seq(pts, start_cap, end_cap, c) =~= quads_from(pts, c, 0) + fan_seq(
        start_cap.center,
        start_cap.rim@,
        c,
    ) + fan_seq(end_cap.center, end_cap.rim@, c));
}

proof fn lemma_joins_from_all_miter(pts: Seq<PointGeometry>, c: Color, i: int)
    requires
        forall|k: int| i <= k && k + 1 < pts.len() ==> (#[trigger] pts[k]).offsets.kind is Miter,
    ensures
        joins_from(pts, c, i) == Seq::<Scalar>::empty(),
    decreases pts.len() - i,
{
    if !(i < 1 || i + 1 >= pts.len()) {
        lemma_joins_from_all_miter(pts, c, i + 1);
        assert(joins_from(pts, c, i) =~= Seq::<Scalar>::empty());
    }
}

} // verus!
