//! Unit tests of the individual tessellation components: the vertex sink,
//! the input defaulting rules, the arc step floor and the join resolver.

use ink_engine::fan::{arc_step_count, CAP_MIN_STEPS, JOIN_MIN_STEPS};
use ink_engine::join::{plain_offsets, resolve_join, JoinKind, OffsetPair};
use ink_engine::vertex::{
    push_tri, push_vertex, resolve_color, stroke_width_at, Color, Point, ONE_BITS,
};

fn pt(x: f32, y: f32) -> Point {
    Point { x: x.to_bits(), y: y.to_bits() }
}

fn rgba(r: f32, g: f32, b: f32, a: f32) -> Color {
    Color { r: r.to_bits(), g: g.to_bits(), b: b.to_bits(), a: a.to_bits() }
}

#[test]
fn vertex_sink_attribute_order() {
    let mut out: Vec<u32> = Vec::new();
    push_vertex(&mut out, pt(1.5, -2.0), rgba(0.25, 0.5, 0.75, 1.0));
    assert_eq!(
        out,
        vec![
            1.5f32.to_bits(),
            (-2.0f32).to_bits(),
            0.25f32.to_bits(),
            0.5f32.to_bits(),
            0.75f32.to_bits(),
            1.0f32.to_bits(),
        ]
    );
}

#[test]
fn triangle_sink_vertex_order() {
    let mut out: Vec<u32> = Vec::new();
    let c = rgba(0.0, 1.0, 0.0, 0.5);
    push_tri(&mut out, pt(0.0, 0.0), pt(1.0, 0.0), pt(0.0, 1.0), c);
    assert_eq!(out.len(), 18);
    assert_eq!(out[0], 0.0f32.to_bits());
    assert_eq!(out[6], 1.0f32.to_bits());
    assert_eq!(out[7], 0.0f32.to_bits());
    assert_eq!(out[12], 0.0f32.to_bits());
    assert_eq!(out[13], 1.0f32.to_bits());
    for v in 0..3 {
        assert_eq!(out[v * 6 + 2], 0.0f32.to_bits());
        assert_eq!(out[v * 6 + 3], 1.0f32.to_bits());
        assert_eq!(out[v * 6 + 4], 0.0f32.to_bits());
        assert_eq!(out[v * 6 + 5], 0.5f32.to_bits());
    }
}

#[test]
fn color_channels_default() {
    let empty: Vec<u32> = Vec::new();
    assert_eq!(resolve_color(&empty), Color { r: 0, g: 0, b: 0, a: ONE_BITS });
    let red_only: Vec<u32> = vec![1.0f32.to_bits()];
    assert_eq!(resolve_color(&red_only), Color { r: 1.0f32.to_bits(), g: 0, b: 0, a: ONE_BITS });
    let full: Vec<u32> = vec![
        0.1f32.to_bits(),
        0.2f32.to_bits(),
        0.3f32.to_bits(),
        0.4f32.to_bits(),
    ];
    assert_eq!(resolve_color(&full), rgba(0.1, 0.2, 0.3, 0.4));
    assert_eq!(ONE_BITS, 1.0f32.to_bits());
}

#[test]
fn missing_width_defaults_to_one() {
    let widths: Vec<u32> = vec![2.0f32.to_bits()];
    assert_eq!(stroke_width_at(&widths, 0), 2.0f32.to_bits());
    assert_eq!(stroke_width_at(&widths, 1), ONE_BITS);
    let none: Vec<u32> = Vec::new();
    assert_eq!(stroke_width_at(&none, 0), ONE_BITS);
}

#[test]
fn arc_step_floor() {
    assert_eq!(arc_step_count(10, JOIN_MIN_STEPS), 10);
    assert_eq!(arc_step_count(2, JOIN_MIN_STEPS), JOIN_MIN_STEPS);
    assert_eq!(arc_step_count(0, CAP_MIN_STEPS), CAP_MIN_STEPS);
    assert_eq!(arc_step_count(6, CAP_MIN_STEPS), 6);
}

#[test]
fn join_resolver_decision_table() {
    let miter = OffsetPair { left: pt(1.0, 1.0), right: pt(1.0, -1.0) };
    let prev = OffsetPair { left: pt(2.0, 1.0), right: pt(2.0, -1.0) };
    let next = OffsetPair { left: pt(3.0, 1.0), right: pt(3.0, -1.0) };
    let j = resolve_join(false, true, miter, prev, next);
    assert_eq!(j.kind, JoinKind::Miter);
    assert_eq!(j.prev, miter);
    assert_eq!(j.next, miter);
    for (degenerate, within) in [(true, true), (true, false), (false, false)] {
        let j = resolve_join(degenerate, within, miter, prev, next);
        assert_eq!(j.kind, JoinKind::Round);
        assert_eq!(j.prev, prev);
        assert_eq!(j.next, next);
    }
}

#[test]
fn endpoint_offsets_coincide() {
    let pair = OffsetPair { left: pt(0.0, 1.0), right: pt(0.0, -1.0) };
    let j = plain_offsets(pair);
    assert_eq!(j.kind, JoinKind::Miter);
    assert_eq!(j.prev, pair);
    assert_eq!(j.next, pair);
}
