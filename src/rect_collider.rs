//! Axis-aligned rectangular colliders.
use vstd::prelude::*;
use crate::physics_controller::PhysicsController;
use crate::units::POS_LIMIT;

verus! {

/// An axis-aligned rectangle: top-left corner `(x, y)`, y growing downward.
#[derive(Clone, Copy, Debug, PartialEq, Eq, Structural)]
pub struct RectCollider {
    pub x: i64,
    pub y: i64,
    pub width: i64,
    pub height: i64,
}

/// Whether a position fits the world's coordinate range.
pub open spec fn pos_ok(v: int) -> bool {
    -POS_LIMIT <= v && v <= POS_LIMIT
}

/// Whether a size is non-negative and fits the world's coordinate range.
pub open spec fn size_ok(v: int) -> bool {
    0 <= v && v <= POS_LIMIT
}

/// Whether the open intervals `(a, a + a_len)` and `(b, b + b_len)` share a
/// point; an empty interval shares none.
pub open spec fn spans_overlap(a: int, a_len: int, b: int, b_len: int) -> bool {
    a < b + b_len && b < a + a_len && 0 < a_len && 0 < b_len
}

impl RectCollider {
    /// A collider is well formed when its size is non-negative and every
    /// coordinate is within range.
    pub open spec fn wf(&self) -> bool {
        pos_ok(self.x as int) && pos_ok(self.y as int) && size_ok(self.width as int)
            && size_ok(self.height as int)
    }

    /// Two colliders touch when their interiors overlap on both axes; contact
    /// along an edge or at a corner does not count.
    pub open spec fn touches(&self, other: &RectCollider) -> bool {
        spans_overlap(self.x as int, self.width as int, other.x as int, other.width as int)
            && spans_overlap(self.y as int, self.height as int, other.y as int, other.height as int)
    }

    /// Whether `(px, py)` lies strictly inside the collider.
    pub open spec fn holds(&self, px: int, py: int) -> bool {
        self.x < px && px < self.x + self.width && self.y < py && py < self.y + self.height
    }

    pub fn new(x: i64, y: i64, width: i64, height: i64) -> (r: RectCollider)
        ensures
            r == (RectCollider { x, y, width, height }),
    {
        RectCollider { x, y, width, height }
    }

    pub fn x(&self) -> (r: i64)
        ensures
            r == self.x,
    {
        self.x
    }

    pub fn y(&self) -> (r: i64)
        ensures
            r == self.y,
    {
        self.y
    }

    pub fn width(&self) -> (r: i64)
        ensures
            r == self.width,
    {
        self.width
    }

    pub fn height(&self) -> (r: i64)
        ensures
            r == self.height,
    {
        self.height
    }

    pub fn set_x(&mut self, x: i64)
        ensures
            *final(self) == (RectCollider { x, ..*old(self) }),
    {
        self.x = x;
    }

    pub fn set_y(&mut self, y: i64)
        ensures
            *final(self) == (RectCollider { y, ..*old(self) }),
    {
        self.y = y;
    }

    pub fn set_width(&mut self, width: i64)
        ensures
            *final(self) == (RectCollider { width, ..*old(self) }),
    {
        self.width = width;
    }

    pub fn set_height(&mut self, height: i64)
        ensures
            *final(self) == (RectCollider { height, ..*old(self) }),
    {
        self.height = height;
    }

    /// Strict overlap test: true exactly when the interiors intersect.
    pub fn is_touching(&self, other: &RectCollider) -> (r: bool)
        requires
            self.wf(),
            other.wf(),
        ensures
            r == self.touches(other),
    {
        self.height + self.y > other.y && self.y < other.y + other.height && self.x + self.width
            > other.x && self.x < other.x + other.width && self.width > 0 && self.height > 0
            && other.width > 0 && other.height > 0
    }

    /// Strict point test: true exactly when the point is inside, not on the border.
    pub fn contains_point(&self, px: i64, py: i64) -> (r: bool)
        requires
            self.wf(),
        ensures
            r == self.holds(px as int, py as int),
    {
        self.height + self.y > py && self.y < py && self.x + self.width > px && self.x < px
    }
}

impl RectCollider {
    /// Follows a body: moves the collider to the body's position.
    pub fn update(&mut self, physics_controller: &PhysicsController)
        ensures
            *final(self) == (RectCollider { x: physics_controller.x, y: physics_controller.y, ..*old(self) }),
    {
        self.x = physics_controller.x();
        self.y = physics_controller.y();
    }
}

/// Colliders that meet only along an edge or at a corner, so that the shared
/// region has zero area, do not touch, in either order.
pub proof fn lemma_edge_contact_is_not_touching(a: RectCollider, b: RectCollider)
    requires
        a.x + a.width == b.x || b.x + b.width == a.x || a.y + a.height == b.y || b.y + b.height
            == a.y,
    ensures
        !a.touches(&b),
        !b.touches(&a),
{
}

} // verus!
