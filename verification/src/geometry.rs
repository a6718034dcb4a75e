//! Integer vectors, axis-aligned rectangles and the overlap test used for
//! collision detection.

use vstd::prelude::*;

verus! {

/// An integer (x, y) pair, used both for positions and for sizes.  The
/// simulation is discrete: there is no sub-pixel state.
#[derive(Clone, Copy, PartialEq, Eq, Structural, Debug)]
pub struct Vector2i {
    pub x: i32,
    pub y: i32,
}

/// An axis-aligned box: top-left origin, y grows downward.
#[derive(Clone, Copy, PartialEq, Eq, Structural, Debug)]
pub struct Rect {
    pub pos: Vector2i,
    pub size: Vector2i,
}

/// Coordinates and sizes the geometry works on stay well inside `i32`, so
/// that edge computations (`pos + size`) cannot overflow.
pub open spec fn vector_in_range(v: Vector2i) -> bool {
    &&& -0x10_0000 <= v.x <= 0x10_0000
    &&& -0x10_0000 <= v.y <= 0x10_0000
}

/// A well-formed rectangle: bounded coordinates and non-negative size.
pub open spec fn rect_wf(r: Rect) -> bool {
    &&& vector_in_range(r.pos)
    &&& vector_in_range(r.size)
    &&& r.size.x >= 0
    &&& r.size.y >= 0
}

/// Two boxes overlap iff they share interior area on both axes; all four
/// inequalities are strict, so boxes that merely touch along an edge do not
/// overlap.
pub open spec fn rects_overlap(a: Rect, b: Rect) -> bool {
    &&& a.pos.x < b.pos.x + b.size.x
    &&& b.pos.x < a.pos.x + a.size.x
    &&& a.pos.y < b.pos.y + b.size.y
    &&& b.pos.y < a.pos.y + a.size.y
}

/// The executable overlap test.
pub fn check_overlap(a: &Rect, b: &Rect) -> (r: bool)
    requires
        rect_wf(*a),
        rect_wf(*b),
    ensures
        r == rects_overlap(*a, *b),
{
    a.pos.x < b.pos.x + b.size.x && b.pos.x < a.pos.x + a.size.x && a.pos.y < b.pos.y + b.size.y
        && b.pos.y < a.pos.y + a.size.y
}

/// Collision check of one player box against every car box: true iff some
/// car overlaps the player.  Only the boolean outcome matters, so the order
/// of testing is irrelevant.
pub fn check_collision(player: &Rect, cars: &Vec<Rect>) -> (r: bool)
    requires
        rect_wf(*player),
        forall|i: int| 0 <= i < cars@.len() ==> rect_wf(cars@[i]),
    ensures
        r == exists|i: int| 0 <= i < cars@.len() && rects_overlap(*player, cars@[i]),
{
    let mut idx: usize = 0;
    while idx < cars.len()
        invariant
            0 <= idx <= cars@.len(),
            rect_wf(*player),
            forall|i: int| 0 <= i < cars@.len() ==> rect_wf(cars@[i]),
            forall|i: int| 0 <= i < idx ==> !rects_overlap(*player, cars@[i]),
        decreases cars@.len() - idx,
    {
        if check_overlap(player, &cars[idx]) {
            return true;
        }
        idx = idx + 1;
    }
    false
}

/// Law: boxes that share only a boundary edge do not register as a
/// collision (edge-touching is not contact in this discrete geometry).
pub proof fn lemma_edge_touch_is_not_collision(p: Rect, c: Rect)
    requires
        p.pos.x + p.size.x == c.pos.x || c.pos.x + c.size.x == p.pos.x || p.pos.y + p.size.y
            == c.pos.y || c.pos.y + c.size.y == p.pos.y,
    ensures
        !rects_overlap(p, c),
{
}

/// Law: one unit of horizontal overlap between vertically overlapping boxes
/// does register as a collision.
pub proof fn lemma_unit_overlap_is_collision(p: Rect, c: Rect)
    requires
        p.size.x >= 1,
        c.size.x >= 1,
        p.pos.x + p.size.x == c.pos.x + 1,
        p.pos.y < c.pos.y + c.size.y,
        c.pos.y < p.pos.y + p.size.y,
    ensures
        rects_overlap(p, c),
{
}

} // verus!
