//! Stepped rays through a list of colliders.
use vstd::prelude::*;
use crate::rect_collider::RectCollider;
use crate::units::{in_field, FIELD_BOTTOM, FIELD_LEFT, FIELD_RIGHT, FIELD_TOP, PX, STEP_LIMIT};

verus! {

/// How close, in engine units, a contact point may lie to an edge of the struck
/// collider to be moved onto that edge.
pub const SNAP_TOLERANCE: i64 = 5 * PX;

/// Largest magnitude of a coordinate of any contact point a ray can give.
pub const REACH_LIMIT: i64 = 2_000_000;

/// No ray takes more steps than this before it hits or leaves the playfield.
pub const RAY_STEP_BOUND: i64 = FIELD_RIGHT - FIELD_LEFT;

/// A direction, as the displacement of one step.
#[derive(Clone, Copy, Debug, PartialEq, Eq, Structural)]
pub struct Aim {
    pub dx: i64,
    pub dy: i64,
}

impl Aim {
    /// A usable direction moves on at least one axis and has bounded components.
    pub open spec fn wf(&self) -> bool {
        (self.dx != 0 || self.dy != 0) && -STEP_LIMIT <= self.dx && self.dx <= STEP_LIMIT
            && -STEP_LIMIT <= self.dy && self.dy <= STEP_LIMIT
    }
}

/// Position after `k` steps of `(dx, dy)` from `(sx, sy)`.
#[verifier::opaque]
pub open spec fn ray_point(sx: int, sy: int, aim: Aim, k: int) -> (int, int) {
    (sx + k * aim.dx, sy + k * aim.dy)
}

/// No collider of `cs` holds the point.
pub open spec fn unheld(cs: Seq<RectCollider>, px: int, py: int) -> bool {
    forall|i: int| 0 <= i < cs.len() ==> !(#[trigger] cs[i]).holds(px, py)
}

/// `i` is the first collider of `cs` that holds the point.
pub open spec fn first_holder(cs: Seq<RectCollider>, i: int, px: int, py: int) -> bool {
    &&& 0 <= i < cs.len()
    &&& cs[i].holds(px, py)
    &&& forall|j: int| 0 <= j < i ==> !(#[trigger] cs[j]).holds(px, py)
}

/// The ray went `k` steps unobstructed: every point before step `k` lay in the
/// playfield, and no point after the start and before step `k` was inside a
/// collider.
pub open spec fn clear_until(sx: int, sy: int, aim: Aim, cs: Seq<RectCollider>, k: int) -> bool {
    &&& 0 <= k
    &&& forall|j: int|
        0 <= j < k ==> #[trigger] in_field(ray_point(sx, sy, aim, j).0, ray_point(sx, sy, aim, j).1)
    &&& forall|j: int|
        1 <= j < k ==> #[trigger] unheld(
            cs,
            ray_point(sx, sy, aim, j).0,
            ray_point(sx, sy, aim, j).1,
        )
}

/// A point that entered collider `c` is moved onto the nearest edge of `c`
/// within `SNAP_TOLERANCE`, tried in the order right, left, bottom, top.
pub open spec fn snap(c: RectCollider, px: int, py: int) -> (int, int) {
    let right = c.x + c.width;
    let bottom = c.y + c.height;
    if px < right && px > right - SNAP_TOLERANCE {
        (right, py)
    } else if px > c.x && px < c.x + SNAP_TOLERANCE {
        (c.x as int, py)
    } else if py < bottom && py > bottom - SNAP_TOLERANCE {
        (px, bottom)
    } else if py > c.y && py < c.y + SNAP_TOLERANCE {
        (px, c.y as int)
    } else {
        (px, py)
    }
}

/// The ray from `(sx, sy)` first enters a collider at step `k`, and `q` is the
/// snapped contact point.
pub open spec fn hits_at(
    sx: int,
    sy: int,
    aim: Aim,
    cs: Seq<RectCollider>,
    k: int,
    q: (int, int),
) -> bool {
    let p = ray_point(sx, sy, aim, k);
    &&& 1 <= k <= RAY_STEP_BOUND
    &&& clear_until(sx, sy, aim, cs, k)
    &&& exists|i: int| first_holder(cs, i, p.0, p.1) && q == snap(cs[i], p.0, p.1)
}

/// The ray from `(sx, sy)` is at step `k` outside the playfield without having
/// entered any collider.
pub open spec fn escapes_at(sx: int, sy: int, aim: Aim, cs: Seq<RectCollider>, k: int) -> bool {
    let p = ray_point(sx, sy, aim, k);
    &&& k <= RAY_STEP_BOUND
    &&& clear_until(sx, sy, aim, cs, k)
    &&& (k >= 1 ==> unheld(cs, p.0, p.1))
    &&& !in_field(p.0, p.1)
}

/// The distance left to the playfield edge that the ray is heading for.
pub open spec fn edge_distance(x: int, y: int, aim: Aim) -> int {
    let d = if aim.dx > 0 {
        FIELD_RIGHT - x
    } else if aim.dx < 0 {
        x - FIELD_LEFT
    } else if aim.dy > 0 {
        FIELD_BOTTOM - y
    } else {
        y - FIELD_TOP
    };
    if d > 0 {
        d
    } else {
        0
    }
}

/// Whether every collider of the list is well formed.
pub open spec fn all_wf(cs: Seq<RectCollider>) -> bool {
    forall|i: int| 0 <= i < cs.len() ==> (#[trigger] cs[i]).wf()
}

/// A ray cast from a start point in a direction through a list of colliders.
pub struct Raycast {
    pub start_x: i64,
    pub start_y: i64,
    pub aim: Aim,
    pub colliders: Vec<RectCollider>,
}

proof fn lemma_step(sx: int, sy: int, aim: Aim, k: int)
    ensures
        ray_point(sx, sy, aim, 0) == (sx, sy),
        ray_point(sx, sy, aim, k + 1) == (ray_point(sx, sy, aim, k).0 + aim.dx, ray_point(
            sx,
            sy,
            aim,
            k,
        ).1 + aim.dy),
{
    reveal(ray_point);
    assert(0 * aim.dx == 0 && 0 * aim.dy == 0);
    assert((k + 1) * aim.dx == k * aim.dx + aim.dx) by (nonlinear_arith);
    assert((k + 1) * aim.dy == k * aim.dy + aim.dy) by (nonlinear_arith);
}

/// Index of the first collider of `cs` that holds the point, if any.
pub fn first_holder_index(cs: &Vec<RectCollider>, px: i64, py: i64) -> (r: Option<usize>)
    requires
        all_wf(cs@),
    ensures
        match r {
            Some(i) => first_holder(cs@, i as int, px as int, py as int),
            None => unheld(cs@, px as int, py as int),
        },
{
    let n = cs.len();
    let mut i: usize = 0;
    while i < n
        invariant
            all_wf(cs@),
            n == cs@.len(),
            0 <= i <= n,
            forall|j: int| 0 <= j < i ==> !(#[trigger] cs@[j]).holds(px as int, py as int),
        decreases n - i,
    {
        if cs[i].contains_point(px, py) {
            return Some(i);
        }
        i = i + 1;
    }
    None
}

/// Moves a point that entered `c` onto the nearest edge of `c`, as `snap` says.
pub fn snap_to_edge(c: &RectCollider, px: i64, py: i64) -> (r: (i64, i64))
    requires
        c.wf(),
        c.holds(px as int, py as int),
    ensures
        (r.0 as int, r.1 as int) == snap(*c, px as int, py as int),
{
    let right = c.x + c.width;
    let bottom = c.y + c.height;
    if px < right && px > right - SNAP_TOLERANCE {
        (right, py)
    } else if px > c.x && px < c.x + SNAP_TOLERANCE {
        (c.x, py)
    } else if py < bottom && py > bottom - SNAP_TOLERANCE {
        (px, bottom)
    } else if py > c.y && py < c.y + SNAP_TOLERANCE {
        (px, c.y)
    } else {
        (px, py)
    }
}

proof fn lemma_edge_distance_shrinks(x: int, y: int, aim: Aim)
    requires
        in_field(x, y),
        aim.wf(),
    ensures
        1 <= edge_distance(x, y, aim) <= RAY_STEP_BOUND,
        edge_distance(x + aim.dx, y + aim.dy, aim) < edge_distance(x, y, aim),
{
}

proof fn lemma_hit(sx: int, sy: int, aim: Aim, cs: Seq<RectCollider>, k: int, i: int, q: (int, int))
    requires
        1 <= k <= RAY_STEP_BOUND,
        clear_until(sx, sy, aim, cs, k),
        first_holder(cs, i, ray_point(sx, sy, aim, k).0, ray_point(sx, sy, aim, k).1),
        q == snap(cs[i], ray_point(sx, sy, aim, k).0, ray_point(sx, sy, aim, k).1),
    ensures
        hits_at(sx, sy, aim, cs, k, q),
{
}

proof fn lemma_hit_within_reach(sx: int, sy: int, aim: Aim, cs: Seq<RectCollider>, k: int, q: (int, int))
    requires
        aim.wf(),
        hits_at(sx, sy, aim, cs, k, q),
    ensures
        -REACH_LIMIT <= q.0 <= REACH_LIMIT,
        -REACH_LIMIT <= q.1 <= REACH_LIMIT,
{
    lemma_step(sx, sy, aim, k - 1);
    let prev = ray_point(sx, sy, aim, k - 1);
    assert(in_field(prev.0, prev.1));
    let p = ray_point(sx, sy, aim, k);
    let i = choose|i: int| first_holder(cs, i, p.0, p.1) && q == snap(cs[i], p.0, p.1);
    assert(q == snap(cs[i], p.0, p.1));
}

proof fn lemma_clear_extends(sx: int, sy: int, aim: Aim, cs: Seq<RectCollider>, k: int)
    requires
        clear_until(sx, sy, aim, cs, k),
        in_field(ray_point(sx, sy, aim, k).0, ray_point(sx, sy, aim, k).1),
        k >= 1 ==> unheld(cs, ray_point(sx, sy, aim, k).0, ray_point(sx, sy, aim, k).1),
    ensures
        clear_until(sx, sy, aim, cs, k + 1),
{
    assert forall|j: int| 0 <= j < k + 1 implies #[trigger] in_field(
        ray_point(sx, sy, aim, j).0,
        ray_point(sx, sy, aim, j).1,
    ) by {
        if j < k {
            assert(clear_until(sx, sy, aim, cs, k));
        }
    }
    assert forall|j: int| 1 <= j < k + 1 implies #[trigger] unheld(
        cs,
        ray_point(sx, sy, aim, j).0,
        ray_point(sx, sy, aim, j).1,
    ) by {
        if j < k {
            assert(clear_until(sx, sy, aim, cs, k));
        }
    }
}

impl Raycast {
    pub open spec fn wf(&self) -> bool {
        self.aim.wf() && all_wf(self.colliders@)
    }

    pub fn new(start_x: i64, start_y: i64, aim: Aim, colliders: Vec<RectCollider>) -> (r: Raycast)
        ensures
            r == (Raycast { start_x, start_y, aim, colliders }),
    {
        Raycast { start_x, start_y, aim, colliders }
    }

    /// Steps a point from the start by `aim` until it enters a collider or
    /// leaves the playfield. A hit gives the contact point, snapped onto the
    /// struck collider's edge; leaving the playfield gives `None`. Either
    /// happens within `RAY_STEP_BOUND` steps.
    pub fn cast(&self) -> (r: Option<(i64, i64)>)
        requires
            self.wf(),
        ensures
            match r {
                Some(q) => exists|k: int|
                    #[trigger] hits_at(
                        self.start_x as int,
                        self.start_y as int,
                        self.aim,
                        self.colliders@,
                        k,
                        (q.0 as int, q.1 as int),
                    ),
                None => exists|k: int|
                    #[trigger] escapes_at(
                        self.start_x as int,
                        self.start_y as int,
                        self.aim,
                        self.colliders@,
                        k,
                    ),
            },
            r is Some ==> -REACH_LIMIT <= (r->0).0 <= REACH_LIMIT && -REACH_LIMIT <= (r->0).1
                <= REACH_LIMIT,
    {
        let ghost sx = self.start_x as int;
        let ghost sy = self.start_y as int;
        let aim = self.aim;
        let ghost cs = self.colliders@;
        let mut cx: i64 = self.start_x;
        let mut cy: i64 = self.start_y;
        let ghost mut k: int = 0;
        proof {
            lemma_step(sx, sy, aim, 0);
        }
        let mut result: Option<(i64, i64)> = None;
        while cx > FIELD_LEFT && cx < FIELD_RIGHT && cy > FIELD_TOP && cy < FIELD_BOTTOM
            invariant_except_break
                result is None,
                0 <= k <= RAY_STEP_BOUND,
                (cx as int, cy as int) == ray_point(sx, sy, aim, k),
                clear_until(sx, sy, aim, cs, k),
                k >= 1 ==> unheld(cs, cx as int, cy as int),
                k >= 1 ==> in_field(sx, sy) && k <= edge_distance(sx, sy, aim) && k
                    + edge_distance(cx as int, cy as int, aim) <= edge_distance(sx, sy, aim),
            invariant
                self.wf(),
                aim == self.aim,
                cs == self.colliders@,
                sx == self.start_x,
                sy == self.start_y,
            ensures
                match result {
                    Some(q) => hits_at(sx, sy, aim, cs, k, (q.0 as int, q.1 as int)),
                    None => escapes_at(sx, sy, aim, cs, k),
                },
            decreases edge_distance(cx as int, cy as int, aim),
        {
            proof {
                lemma_step(sx, sy, aim, k);
                lemma_clear_extends(sx, sy, aim, cs, k);
                lemma_edge_distance_shrinks(cx as int, cy as int, aim);
                if k == 0 {
                    lemma_edge_distance_shrinks(sx, sy, aim);
                }
            }
            cx = cx + aim.dx;
            cy = cy + aim.dy;
            proof {
                k = k + 1;
            }
            if let Some(i) = first_holder_index(&self.colliders, cx, cy) {
                let q = snap_to_edge(&self.colliders[i], cx, cy);
                proof {
                    lemma_hit(sx, sy, aim, cs, k, i as int, (q.0 as int, q.1 as int));
                }
                result = Some(q);
                break;
            }
        }
        proof {
            match result {
                Some(q) => lemma_hit_within_reach(sx, sy, aim, cs, k, (q.0 as int, q.1 as int)),
                None => assert(escapes_at(sx, sy, aim, cs, k)),
            }
        }
        result
    }
}

/// The ray from `(sx, sy)` has its verdict at step `k`: it leaves the
/// playfield there, or enters a collider there at some contact point.
pub open spec fn decided_at(sx: int, sy: int, aim: Aim, cs: Seq<RectCollider>, k: int) -> bool {
    escapes_at(sx, sy, aim, cs, k) || exists|q: (int, int)| #[trigger] hits_at(sx, sy, aim, cs, k, q)
}

/// If some collider among the first `n` of `cs` holds the point, one of
/// them is the first to.
proof fn lemma_first_holder_exists(cs: Seq<RectCollider>, n: int, px: int, py: int)
    requires
        0 <= n <= cs.len(),
        exists|i: int| 0 <= i < n && (#[trigger] cs[i]).holds(px, py),
    ensures
        exists|i: int| first_holder(cs, i, px, py),
    decreases n,
{
    if exists|i: int| 0 <= i < n - 1 && (#[trigger] cs[i]).holds(px, py) {
        lemma_first_holder_exists(cs, n - 1, px, py);
    } else {
        assert(first_holder(cs, n - 1, px, py));
    }
}

/// A ray that went `k` steps unobstructed reaches its verdict within
/// `RAY_STEP_BOUND` steps.
proof fn lemma_march(sx: int, sy: int, aim: Aim, cs: Seq<RectCollider>, k: int)
    requires
        aim.wf(),
        k == 0 ==> ray_point(sx, sy, aim, 0) == (sx, sy),
        clear_until(sx, sy, aim, cs, k),
        k >= 1 ==> unheld(cs, ray_point(sx, sy, aim, k).0, ray_point(sx, sy, aim, k).1),
        k >= 1 ==> in_field(sx, sy) && k <= edge_distance(sx, sy, aim) && k + edge_distance(
            ray_point(sx, sy, aim, k).0,
            ray_point(sx, sy, aim, k).1,
            aim,
        ) <= edge_distance(sx, sy, aim),
    ensures
        exists|j: int| #[trigger] decided_at(sx, sy, aim, cs, j),
    decreases edge_distance(ray_point(sx, sy, aim, k).0, ray_point(sx, sy, aim, k).1, aim),
{
    let p = ray_point(sx, sy, aim, k);
    if !in_field(p.0, p.1) {
        if k >= 1 {
            lemma_edge_distance_bounded(sx, sy, aim);
        }
        assert(escapes_at(sx, sy, aim, cs, k));
        assert(decided_at(sx, sy, aim, cs, k));
    } else {
        lemma_step(sx, sy, aim, k);
        lemma_clear_extends(sx, sy, aim, cs, k);
        lemma_edge_distance_shrinks(p.0, p.1, aim);
        let p1 = ray_point(sx, sy, aim, k + 1);
        if unheld(cs, p1.0, p1.1) {
            lemma_march(sx, sy, aim, cs, k + 1);
        } else {
            lemma_first_holder_exists(cs, cs.len() as int, p1.0, p1.1);
            let i = choose|i: int| first_holder(cs, i, p1.0, p1.1);
            let q = snap(cs[i], p1.0, p1.1);
            if k == 0 {
                lemma_edge_distance_shrinks(sx, sy, aim);
            }
            lemma_hit(sx, sy, aim, cs, k + 1, i, q);
            assert(decided_at(sx, sy, aim, cs, k + 1));
        }
    }
}

proof fn lemma_edge_distance_bounded(x: int, y: int, aim: Aim)
    requires
        in_field(x, y),
    ensures
        edge_distance(x, y, aim) <= RAY_STEP_BOUND,
{
}

/// A ray in any direction, from any start, through any list of colliders,
/// reaches its verdict within `RAY_STEP_BOUND` steps: it enters a collider or
/// leaves the bounded playfield, so a cast never runs forever.
pub proof fn lemma_ray_reaches_a_verdict(sx: int, sy: int, aim: Aim, cs: Seq<RectCollider>)
    requires
        aim.wf(),
    ensures
        exists|k: int| 0 <= k <= RAY_STEP_BOUND && #[trigger] decided_at(sx, sy, aim, cs, k),
{
    lemma_step(sx, sy, aim, 0);
    assert(clear_until(sx, sy, aim, cs, 0));
    lemma_march(sx, sy, aim, cs, 0);
    let k = choose|j: int| #[trigger] decided_at(sx, sy, aim, cs, j);
    if !escapes_at(sx, sy, aim, cs, k) {
        let q = choose|q: (int, int)| #[trigger] hits_at(sx, sy, aim, cs, k, q);
        assert(hits_at(sx, sy, aim, cs, k, q));
    }
}

} // verus!
