//! The rectangle that stands for a bounding box in the plane.
use vstd::prelude::*;

verus! {

/// The closed ring of the rectangle with corners `(min_x, min_y)` and
/// `(max_x, max_y)`: counter-clockwise from the lower left corner, and back to it.
pub open spec fn ring_of<T>(min_x: T, min_y: T, max_x: T, max_y: T) -> Seq<(T, T)> {
    seq![(min_x, min_y), (max_x, min_y), (max_x, max_y), (min_x, max_y), (min_x, min_y)]
}

/// The polygon ring of a bounding box given by its X and Y extents: five
/// vertices, `(min_x, min_y)`, `(max_x, min_y)`, `(max_x, max_y)`,
/// `(min_x, max_y)` and `(min_x, min_y)` again to close it. The Z extent has no
/// part in it.
pub fn bbox_ring<T: Copy>(min_x: T, min_y: T, max_x: T, max_y: T) -> (r: Vec<(T, T)>)
    ensures
        r@ == ring_of(min_x, min_y, max_x, max_y),
{
    let mut r: Vec<(T, T)> = Vec::new();
    r.push((min_x, min_y));
    r.push((max_x, min_y));
    r.push((max_x, max_y));
    r.push((min_x, max_y));
    r.push((min_x, min_y));
    assert(r@ =~= ring_of(min_x, min_y, max_x, max_y));
    r
}

/// A bounding box's ring is closed and has exactly five vertices; its first
/// four are the four corners, each pairing one of the X bounds with one of
/// the Y bounds, and nothing else.
pub proof fn lemma_ring_closed_corners<T>(min_x: T, min_y: T, max_x: T, max_y: T)
    ensures
        ring_of(min_x, min_y, max_x, max_y).len() == 5,
        ring_of(min_x, min_y, max_x, max_y)[0] == ring_of(min_x, min_y, max_x, max_y)[4],
        ring_of(min_x, min_y, max_x, max_y).subrange(0, 4).to_set() == set![
            (min_x, min_y),
            (max_x, min_y),
            (max_x, max_y),
            (min_x, max_y),
        ],
        forall|x: T, y: T|
            #[trigger] ring_of(min_x, min_y, max_x, max_y).subrange(0, 4).contains((x, y)) <==> (
            x == min_x || x == max_x) && (y == min_y || y == max_y),
{
    let ring = ring_of(min_x, min_y, max_x, max_y);
    let corners = ring.subrange(0, 4);
    let s = set![(min_x, min_y), (max_x, min_y), (max_x, max_y), (min_x, max_y)];
    assert forall|p: (T, T)| corners.to_set().contains(p) <==> s.contains(p) by {
        if s.contains(p) {
            if p == (min_x, min_y) {
                assert(corners[0] == p);
            } else if p == (max_x, min_y) {
                assert(corners[1] == p);
            } else if p == (max_x, max_y) {
                assert(corners[2] == p);
            } else {
                assert(corners[3] == p);
            }
        }
    }
    assert(corners.to_set() =~= s);
    assert forall|x: T, y: T| #[trigger] corners.contains((x, y)) <==> (x == min_x || x == max_x)
        && (y == min_y || y == max_y) by {
        if (x == min_x || x == max_x) && (y == min_y || y == max_y) {
            if x == min_x && y == min_y {
                assert(corners[0] == (x, y));
            } else if x == max_x && y == min_y {
                assert(corners[1] == (x, y));
            } else if x == max_x {
                assert(corners[2] == (x, y));
            } else {
                assert(corners[3] == (x, y));
            }
        }
    }
}

} // verus!
