//! Overlap of two axis-aligned boxes, and the side over which one has entered
//! the other.
//!
//! A box is given by its centre and its size. Its edges lie half a size from
//! the centre; to keep them whole numbers the definitions below double every
//! edge, which changes no comparison between them.

use crate::vector::{Vec2, Vec2View, Vec3, Vec3View};
use vstd::prelude::*;

verus! {

/// How the first box lies against the second one where the two overlap: the
/// side of the second box over which the first has entered it, or `Inside`
/// where it has crossed none of its edges.
#[derive(Clone, Copy, Debug, PartialEq, Eq, Structural)]
pub enum Collision {
    Left,
    Right,
    Top,
    Bottom,
    Inside,
}

impl Collision {
    /// Whether an edge was crossed. Only such a contact destroys a projectile.
    pub open spec fn is_edge(self) -> bool {
        self != Collision::Inside
    }

    /// Whether an edge was crossed.
    pub fn crosses_edge(&self) -> (edge: bool)
        ensures
            edge == self.is_edge(),
    {
        match self {
            Collision::Inside => false,
            _ => true,
        }
    }
}

/// The extent of a box along one axis: twice its lower and twice its upper
/// edge.
pub struct Span {
    pub lo: int,
    pub hi: int,
}

/// The extent along one axis of a box with the given centre and size.
pub open spec fn span(centre: int, size: int) -> Span {
    Span { lo: 2 * centre - size, hi: 2 * centre + size }
}

impl Span {
    /// The two extents share more than a point.
    pub open spec fn meets(self, other: Span) -> bool {
        self.lo < other.hi && self.hi > other.lo
    }

    /// `self` reaches over the lower edge of `other` and ends inside it.
    pub open spec fn enters_low(self, other: Span) -> bool {
        self.lo < other.lo && self.hi > other.lo && self.hi < other.hi
    }

    /// `self` reaches over the upper edge of `other` and starts inside it.
    pub open spec fn enters_high(self, other: Span) -> bool {
        self.lo > other.lo && self.lo < other.hi && self.hi > other.hi
    }

    /// How far `self` reaches into `other` over the edge it crosses, doubled;
    /// `None` where it crosses no edge or both.
    pub open spec fn depth(self, other: Span) -> Option<int> {
        if self.enters_low(other) {
            Some(self.hi - other.lo)
        } else if self.enters_high(other) {
            Some(other.hi - self.lo)
        } else {
            None
        }
    }

    /// `self` lies within `other` and is not empty.
    pub open spec fn within(self, other: Span) -> bool {
        other.lo <= self.lo && self.lo < self.hi && self.hi <= other.hi
    }
}

/// Whether the first depth is the smaller one. A missing depth counts as
/// larger than any number, and as equal to another missing one.
pub open spec fn shallower(first: Option<int>, second: Option<int>) -> bool {
    match (first, second) {
        (Some(a), Some(b)) => a < b,
        (Some(_), None) => true,
        (None, _) => false,
    }
}

/// The boxes' interiors intersect.
pub open spec fn overlaps(a_pos: Vec3View, a_size: Vec2View, b_pos: Vec3View, b_size: Vec2View) -> bool {
    &&& span(a_pos.x, a_size.x).meets(span(b_pos.x, b_size.x))
    &&& span(a_pos.y, a_size.y).meets(span(b_pos.y, b_size.y))
}

/// The side of box `b` over which box `a` has entered it.
///
/// `None` where the boxes do not overlap. Else each axis names the edge of `b`
/// that `a` crosses, if it crosses exactly one, and the answer is the vertical
/// edge (`Bottom`, `Top`) where `a` reaches less far over it than over the
/// horizontal one (`Left`, `Right`), the horizontal edge otherwise. It is
/// `Inside` exactly where no axis names an edge.
pub open spec fn collide_spec(
    a_pos: Vec3View,
    a_size: Vec2View,
    b_pos: Vec3View,
    b_size: Vec2View,
) -> Option<Collision> {
    let ax = span(a_pos.x, a_size.x);
    let bx = span(b_pos.x, b_size.x);
    let ay = span(a_pos.y, a_size.y);
    let by = span(b_pos.y, b_size.y);
    if ax.meets(bx) && ay.meets(by) {
        let x_side = if ax.enters_low(bx) {
            Collision::Left
        } else if ax.enters_high(bx) {
            Collision::Right
        } else {
            Collision::Inside
        };
        let y_side = if ay.enters_low(by) {
            Collision::Bottom
        } else if ay.enters_high(by) {
            Collision::Top
        } else {
            Collision::Inside
        };
        if shallower(ay.depth(by), ax.depth(bx)) {
            Some(y_side)
        } else {
            Some(x_side)
        }
    } else {
        None
    }
}

/// Twice the lower and twice the upper edge of a box along one axis.
fn edges(centre: i64, size: i64) -> (e: (i128, i128))
    ensures
        e.0 == span(centre as int, size as int).lo,
        e.1 == span(centre as int, size as int).hi,
{
    let c: i128 = centre as i128;
    let s: i128 = size as i128;
    (2 * c - s, 2 * c + s)
}

/// The side of box `b` over which box `a` has entered it, if they overlap.
///
/// This is the test that the engine's `collide_aabb::collide` makes on
/// floating-point boxes, here on whole numbers: where the engine holds every
/// edge exactly, the two give the same answer.
pub fn collide(a_pos: Vec3, a_size: Vec2, b_pos: Vec3, b_size: Vec2) -> (hit: Option<Collision>)
    ensures
        hit == collide_spec(a_pos@, a_size@, b_pos@, b_size@),
{
    let (a_min_x, a_max_x) = edges(a_pos.x, a_size.x);
    let (b_min_x, b_max_x) = edges(b_pos.x, b_size.x);
    let (a_min_y, a_max_y) = edges(a_pos.y, a_size.y);
    let (b_min_y, b_max_y) = edges(b_pos.y, b_size.y);

    if a_min_x < b_max_x && a_max_x > b_min_x && a_min_y < b_max_y && a_max_y > b_min_y {
        let (x_collision, x_depth) = if a_min_x < b_min_x && a_max_x > b_min_x && a_max_x < b_max_x {
            (Collision::Left, Some(a_max_x - b_min_x))
        } else if a_min_x > b_min_x && a_min_x < b_max_x && a_max_x > b_max_x {
            (Collision::Right, Some(b_max_x - a_min_x))
        } else {
            (Collision::Inside, None)
        };
        let (y_collision, y_depth) = if a_min_y < b_min_y && a_max_y > b_min_y && a_max_y < b_max_y {
            (Collision::Bottom, Some(a_max_y - b_min_y))
        } else if a_min_y > b_min_y && a_min_y < b_max_y && a_max_y > b_max_y {
            (Collision::Top, Some(b_max_y - a_min_y))
        } else {
            (Collision::Inside, None)
        };
        let vertical = match (y_depth, x_depth) {
            (Some(y), Some(x)) => y < x,
            (Some(_), None) => true,
            (None, _) => false,
        };
        if vertical {
            Some(y_collision)
        } else {
            Some(x_collision)
        }
    } else {
        None
    }
}

/// Two boxes collide exactly where their interiors intersect.
pub proof fn lemma_collides_iff_overlaps(
    a_pos: Vec3View,
    a_size: Vec2View,
    b_pos: Vec3View,
    b_size: Vec2View,
)
    ensures
        collide_spec(a_pos, a_size, b_pos, b_size) is Some <==> overlaps(a_pos, a_size, b_pos, b_size),
{
}

/// The answer is `Inside` exactly where the boxes overlap and `a` crosses
/// exactly one edge of `b` on neither axis.
pub proof fn lemma_inside_iff_no_edge(
    a_pos: Vec3View,
    a_size: Vec2View,
    b_pos: Vec3View,
    b_size: Vec2View,
)
    ensures
        collide_spec(a_pos, a_size, b_pos, b_size) == Some(Collision::Inside) <==> {
            &&& overlaps(a_pos, a_size, b_pos, b_size)
            &&& span(a_pos.x, a_size.x).depth(span(b_pos.x, b_size.x)) is None
            &&& span(a_pos.y, a_size.y).depth(span(b_pos.y, b_size.y)) is None
        },
{
}

/// A box of positive size that lies within another one, edges included, is
/// `Inside` it.
pub proof fn lemma_enclosed_is_inside(
    a_pos: Vec3View,
    a_size: Vec2View,
    b_pos: Vec3View,
    b_size: Vec2View,
)
    requires
        span(a_pos.x, a_size.x).within(span(b_pos.x, b_size.x)),
        span(a_pos.y, a_size.y).within(span(b_pos.y, b_size.y)),
    ensures
        collide_spec(a_pos, a_size, b_pos, b_size) == Some(Collision::Inside),
{
}

} // verus!
