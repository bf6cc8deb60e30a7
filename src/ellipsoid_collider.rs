//! Circular colliders on integer coordinates.
use vstd::prelude::*;

verus! {

/// A point on the integer grid.
#[derive(Clone, Copy, Debug, PartialEq, Eq, Structural)]
pub struct Point {
    pub x: i32,
    pub y: i32,
}

impl Point {
    pub fn new(x: i32, y: i32) -> (r: Point)
        ensures
            r == (Point { x, y }),
    {
        Point { x, y }
    }
}

/// A circle with centre `(x, y)` and radius `r`.
#[derive(Clone, Copy, Debug, PartialEq, Eq, Structural)]
pub struct Ellipse {
    pub x: i32,
    pub y: i32,
    pub r: u32,
}

/// Whether the centre and radius keep every point of the bounding square
/// within `i32`.
pub open spec fn fits(e: Ellipse) -> bool {
    e.r <= i32::MAX && i32::MIN <= e.x - e.r && e.x + e.r <= i32::MAX && i32::MIN <= e.y - e.r
        && e.y + e.r <= i32::MAX
}

/// The grid offset `(i, j)` lies in the half-open square `[-rad, rad)²` and
/// strictly inside the circle of radius `rad`.
pub open spec fn in_disk(rad: int, i: int, j: int) -> bool {
    -rad <= i < rad && -rad <= j < rad && i * i + j * j < rad * rad
}

/// Points ordered by `x`, then by `y`.
pub open spec fn before(a: Point, b: Point) -> bool {
    a.x < b.x || (a.x == b.x && a.y < b.y)
}

impl Ellipse {
    pub fn new(x: i32, y: i32, r: u32) -> (e: Ellipse)
        ensures
            e == (Ellipse { x, y, r }),
    {
        Ellipse { x, y, r }
    }

    pub fn x(&self) -> (v: i32)
        ensures
            v == self.x,
    {
        self.x
    }

    pub fn y(&self) -> (v: i32)
        ensures
            v == self.y,
    {
        self.y
    }

    pub fn r(&self) -> (v: u32)
        ensures
            v == self.r,
    {
        self.r
    }

    pub fn set_x(&mut self, x: i32)
        ensures
            *final(self) == (Ellipse { x, ..*old(self) }),
    {
        self.x = x;
    }

    pub fn set_y(&mut self, y: i32)
        ensures
            *final(self) == (Ellipse { y, ..*old(self) }),
    {
        self.y = y;
    }

    pub fn left(&self) -> (v: i32)
        requires
            fits(*self),
        ensures
            v == self.x - self.r,
    {
        self.x - (self.r as i32)
    }

    pub fn right(&self) -> (v: i32)
        requires
            fits(*self),
        ensures
            v == self.x + self.r,
    {
        self.x + (self.r as i32)
    }

    pub fn top(&self) -> (v: i32)
        requires
            fits(*self),
        ensures
            v == self.y - self.r,
    {
        self.y - (self.r as i32)
    }

    pub fn bottom(&self) -> (v: i32)
        requires
            fits(*self),
        ensures
            v == self.y + self.r,
    {
        self.y + (self.r as i32)
    }

    /// Every grid point strictly inside the circle, offset from the centre by
    /// less than the radius on each axis (the square is half-open), ordered
    /// by `x` and then by `y`.
    pub fn get_points(&self) -> (pts: Vec<Point>)
        requires
            fits(*self),
            self.r <= 1_000_000,
        ensures
            forall|p: Point|
                pts@.contains(p) <==> in_disk(self.r as int, p.x - self.x, p.y - self.y),
            forall|a: int, b: int| 0 <= a < b < pts@.len() ==> before(#[trigger] pts@[a], #[trigger] pts@[b]),
    {
        let rad: i64 = self.r as i64;
        assert(rad * rad <= 1_000_000_000_000) by (nonlinear_arith)
            requires
                0 <= rad <= 1_000_000,
        ;
        let rad_sq: i64 = rad * rad;
        let mut pts: Vec<Point> = Vec::new();
        let mut i: i64 = -rad;
        while i < rad
            invariant
                rad == self.r,
                fits(*self),
                self.r <= 1_000_000,
                rad_sq == rad * rad,
                -rad <= i <= rad,
                forall|p: Point|
                    pts@.contains(p) <==> (in_disk(rad as int, p.x - self.x, p.y - self.y) && p.x
                        - self.x < i),
                forall|a: int, b: int|
                    0 <= a < b < pts@.len() ==> before(#[trigger] pts@[a], #[trigger] pts@[b]),
                forall|a: int| 0 <= a < pts@.len() ==> (#[trigger] pts@[a]).x - self.x < i,
            decreases rad - i,
        {
            let mut j: i64 = -rad;
            while j < rad
                invariant
                    rad == self.r,
                    fits(*self),
                    self.r <= 1_000_000,
                    rad_sq == rad * rad,
                    -rad <= i < rad,
                    -rad <= j <= rad,
                    forall|p: Point|
                        pts@.contains(p) <==> (in_disk(rad as int, p.x - self.x, p.y - self.y) && (
                        p.x - self.x < i || (p.x - self.x == i && p.y - self.y < j))),
                    forall|a: int, b: int|
                        0 <= a < b < pts@.len() ==> before(#[trigger] pts@[a], #[trigger] pts@[b]),
                    forall|a: int|
                        0 <= a < pts@.len() ==> (#[trigger] pts@[a]).x - self.x < i || (pts@[a].x
                            - self.x == i && pts@[a].y - self.y < j),
                decreases rad - j,
            {
                proof {
                    assert(i * i <= 1_000_000_000_000) by (nonlinear_arith)
                        requires
                            -1_000_000 <= i <= 1_000_000,
                    ;
                    assert(j * j <= 1_000_000_000_000) by (nonlinear_arith)
                        requires
                            -1_000_000 <= j <= 1_000_000,
                    ;
                    assert(i * i >= 0) by (nonlinear_arith);
                    assert(j * j >= 0) by (nonlinear_arith);
                }
                if i * i + j * j < rad_sq {
                    let p = Point::new((self.x as i64 + i) as i32, (self.y as i64 + j) as i32);
                    let ghost old_pts = pts@;
                    pts.push(p);
                    proof {
                        assert forall|q: Point|
                            pts@.contains(q) <==> (in_disk(rad as int, q.x - self.x, q.y - self.y)
                                && (q.x - self.x < i || (q.x - self.x == i && q.y - self.y < j
                                + 1))) by {
                            if q == p {
                                assert(pts@[pts@.len() - 1] == p);
                            }
                            if pts@.contains(q) && q != p {
                                let k = choose|k: int| 0 <= k < pts@.len() && pts@[k] == q;
                                assert(old_pts[k] == q);
                                assert(old_pts.contains(q));
                            }
                            if in_disk(rad as int, q.x - self.x, q.y - self.y) && (q.x - self.x < i
                                || (q.x - self.x == i && q.y - self.y < j)) {
                                assert(old_pts.contains(q));
                                let k = choose|k: int| 0 <= k < old_pts.len() && old_pts[k] == q;
                                assert(pts@[k] == q);
                            }
                        }
                    }
                } else {
                    proof {
                        assert forall|q: Point|
                            pts@.contains(q) <==> (in_disk(rad as int, q.x - self.x, q.y - self.y)
                                && (q.x - self.x < i || (q.x - self.x == i && q.y - self.y < j
                                + 1))) by {
                            if q.x - self.x == i && q.y - self.y == j {
                                assert(!in_disk(rad as int, q.x - self.x, q.y - self.y));
                            }
                        }
                    }
                }
                j = j + 1;
            }
            i = i + 1;
            proof {
                assert forall|q: Point|
                    pts@.contains(q) <==> (in_disk(rad as int, q.x - self.x, q.y - self.y) && q.x
                        - self.x < i) by {
                    if q.x - self.x == i - 1 && in_disk(rad as int, q.x - self.x, q.y - self.y) {
                        assert(q.y - self.y < rad);
                    }
                }
            }
        }
        pts
    }
}

/// Whether two circles overlap: their centres are closer than the sum of
/// their radii.
pub open spec fn circles_overlap(a: Ellipse, b: Ellipse) -> bool {
    let dx = a.x - b.x;
    let dy = a.y - b.y;
    let rs = a.r + b.r;
    dx * dx + dy * dy < rs * rs
}

/// Tells whether two circles overlap.
pub fn check_collision(a: &Ellipse, b: &Ellipse) -> (r: bool)
    ensures
        r == circles_overlap(*a, *b),
{
    let radsum: i128 = a.r() as i128 + b.r() as i128;
    let dx: i128 = a.x() as i128 - b.x() as i128;
    let dy: i128 = a.y() as i128 - b.y() as i128;
    proof {
        assert(dx * dx <= 0x1_0000_0000 * 0x1_0000_0000) by (nonlinear_arith)
            requires
                -0x1_0000_0000 <= dx <= 0x1_0000_0000,
        ;
        assert(dy * dy <= 0x1_0000_0000 * 0x1_0000_0000) by (nonlinear_arith)
            requires
                -0x1_0000_0000 <= dy <= 0x1_0000_0000,
        ;
        assert(radsum * radsum <= 0x2_0000_0000 * 0x2_0000_0000) by (nonlinear_arith)
            requires
                0 <= radsum <= 0x2_0000_0000,
        ;
        assert(dx * dx >= 0) by (nonlinear_arith);
        assert(dy * dy >= 0) by (nonlinear_arith);
    }
    dx * dx + dy * dy < radsum * radsum
}

/// The velocity change that friction calls for: a given non-zero change is
/// kept; with none given, a moving body is slowed by one unit and a body at
/// rest stays at rest.
pub fn resist(vel: i32, deltav: i32) -> (r: i32)
    ensures
        r == if deltav == 0 {
            if vel > 0 {
                -1
            } else if vel < 0 {
                1
            } else {
                0
            }
        } else {
            deltav as int
        },
{
    if deltav == 0 {
        if vel > 0 {
            -1
        } else if vel < 0 {
            1
        } else {
            deltav
        }
    } else {
        deltav
    }
}

} // verus!
