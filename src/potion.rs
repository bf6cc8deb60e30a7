//! Thrown potions: ballistic points that open a portal where they strike.
use vstd::prelude::*;
use crate::raycast::{all_wf, first_holder, first_holder_index, snap, snap_to_edge, unheld, Aim};
use crate::rect_collider::RectCollider;
use crate::units::{in_field, FIELD_BOTTOM, FIELD_LEFT, FIELD_RIGHT, FIELD_TOP, PX};
use crate::physics_controller::PhysicsController;
use crate::portal_controller::{lemma_surfaces_wf, Placement, PortalController, Slot};

verus! {

/// Downward acceleration of a potion, per tick: half a pixel.
pub const POTION_GRAVITY: i64 = 50;

/// Fastest a potion falls; it leaves the playfield long before reaching this.
pub const POTION_MAX_FALL: i64 = 40 * PX;

/// Throws aimed farther than this go no faster.
pub const MAX_THROW_DISTANCE: i64 = 400 * PX;

/// Launch speed is the clamped aim distance divided by this.
pub const THROW_DIVISOR: i64 = 20;

/// Fastest launch speed on each axis: `MAX_THROW_DISTANCE / THROW_DIVISOR`.
pub const MAX_LAUNCH_SPEED: i64 = 20 * PX;

/// Degrees a potion spins per tick.
pub const POTION_SPIN: i64 = 15;

/// Largest magnitude an aim offset may take.
pub const AIM_LIMIT: i64 = 1_000_000;

/// The integer square root: the largest `s` with `s * s <= n`.
pub open spec fn is_isqrt(n: int, s: int) -> bool {
    0 <= s && s * s <= n && n < (s + 1) * (s + 1)
}

/// The largest integer whose square does not exceed `n`.
pub fn isqrt(n: u64) -> (s: u64)
    requires
        n <= 4_000_000_000_000,
    ensures
        is_isqrt(n as int, s as int),
{
    let mut lo: u64 = 0;
    let mut hi: u64 = 2_000_001;
    assert(hi * hi > 4_000_000_000_000) by (nonlinear_arith)
        requires
            hi == 2_000_001,
    ;
    while hi - lo > 1
        invariant
            lo < hi <= 2_000_001,
            lo * lo <= n,
            n < hi * hi,
        decreases hi - lo,
    {
        let mid = lo + (hi - lo) / 2;
        assert(mid * mid <= 2_000_001 * 2_000_001) by (nonlinear_arith)
            requires
                mid <= 2_000_001,
        ;
        if mid * mid <= n {
            lo = mid;
        } else {
            hi = mid;
        }
    }
    lo
}

/// Launch velocity toward an aim offset `(dx, dy)` at distance `dist`: the
/// offset's direction, at a speed of the distance clamped to
/// `MAX_THROW_DISTANCE`, divided by `THROW_DIVISOR`; each component rounds
/// toward zero.
pub open spec fn launch_component(d: int, dist: int) -> int {
    let speed_num = if dist > MAX_THROW_DISTANCE { MAX_THROW_DISTANCE as int } else { dist };
    let mag = if d >= 0 { d } else { -d };
    let q = if dist == 0 { 0 } else { (mag * speed_num) / (dist * THROW_DIVISOR) };
    if d >= 0 { q } else { -q }
}

/// One component of the launch velocity, as `launch_component` says.
fn launch_part(d: i64, dist: i64) -> (r: i64)
    requires
        -AIM_LIMIT <= d <= AIM_LIMIT,
        -dist <= d <= dist,
        0 <= dist <= 2 * AIM_LIMIT,
    ensures
        r == launch_component(d as int, dist as int),
        -MAX_LAUNCH_SPEED <= r <= MAX_LAUNCH_SPEED,
{
    let speed_num = if dist > MAX_THROW_DISTANCE { MAX_THROW_DISTANCE } else { dist };
    let mag = if d >= 0 { d } else { -d };
    if dist == 0 {
        return 0;
    }
    assert(mag * speed_num <= AIM_LIMIT * MAX_THROW_DISTANCE) by (nonlinear_arith)
        requires
            0 <= mag <= AIM_LIMIT,
            0 <= speed_num <= MAX_THROW_DISTANCE,
    ;
    assert(mag * speed_num >= 0) by (nonlinear_arith)
        requires
            0 <= mag,
            0 <= speed_num,
    ;
    let num = mag * speed_num;
    let den = dist * THROW_DIVISOR;
    let q = num / den;
    assert(num <= MAX_LAUNCH_SPEED * den) by (nonlinear_arith)
        requires
            num == mag * speed_num,
            den == dist * THROW_DIVISOR,
            0 <= mag <= dist,
            0 <= speed_num <= MAX_THROW_DISTANCE,
    ;
    proof {
        vstd::arithmetic::div_mod::lemma_div_is_ordered(num as int, MAX_LAUNCH_SPEED * den, den as int);
        vstd::arithmetic::div_mod::lemma_div_by_multiple(MAX_LAUNCH_SPEED as int, den as int);
        vstd::arithmetic::div_mod::lemma_div_pos_is_pos(num as int, den as int);
    }
    if d >= 0 { q } else { -q }
}

/// How a potion's flight stands after a tick.
#[derive(Clone, Copy, Debug, PartialEq, Eq, Structural)]
pub enum Flight {
    /// At least one of its points is still in the air.
    Flying,
    /// Both points have struck a surface.
    Landed,
    /// A point left the playfield without striking anything.
    Lost,
}

/// A thrown potion: a main point and a trace point one pixel above it, moving
/// with one velocity under gravity; each point stops where it first strikes a
/// surface.
#[derive(Clone, Copy, Debug, PartialEq, Eq, Structural)]
pub struct Potion {
    pub slot: Slot,
    pub x: i64,
    pub y: i64,
    pub trace_x: i64,
    pub trace_y: i64,
    pub vx: i64,
    pub vy: i64,
    pub rotation: i64,
    pub thrown: bool,
    pub collided: bool,
    pub trace_collided: bool,
}

/// A point moved by the velocity, then stopped and snapped onto the edge of
/// the first surface it entered, if any: the new point and whether it struck.
pub open spec fn advance(cs: Seq<RectCollider>, px: int, py: int, vx: int, vy: int) -> (int, int, bool) {
    let (mx, my) = (px + vx, py + vy);
    if unheld(cs, mx, my) {
        (mx, my, false)
    } else {
        let i = choose|i: int| first_holder(cs, i, mx, my);
        let s = snap(cs[i], mx, my);
        (s.0, s.1, true)
    }
}

/// Whether a coordinate lies within the playfield or one potion step of it.
pub open spec fn near_field(v: int) -> bool {
    -2 * POTION_MAX_FALL + FIELD_TOP <= v && v <= FIELD_RIGHT + 2 * POTION_MAX_FALL
}

/// At most one collider is the first to hold a point.
proof fn lemma_first_holder_unique(cs: Seq<RectCollider>, i: int, j: int, px: int, py: int)
    requires
        first_holder(cs, i, px, py),
        first_holder(cs, j, px, py),
    ensures
        i == j,
{
}

/// Moves a point by the velocity and stops it on the first surface it
/// entered, as `advance` says.
fn advance_point(cs: &Vec<RectCollider>, px: i64, py: i64, vx: i64, vy: i64) -> (r: (i64, i64, bool))
    requires
        all_wf(cs@),
        in_field(px as int, py as int),
        -MAX_LAUNCH_SPEED <= vx <= MAX_LAUNCH_SPEED,
        -MAX_LAUNCH_SPEED <= vy <= POTION_MAX_FALL,
    ensures
        (r.0 as int, r.1 as int, r.2) == advance(cs@, px as int, py as int, vx as int, vy as int),
        near_field(r.0 as int) && near_field(r.1 as int),
{
    let mx = px + vx;
    let my = py + vy;
    match first_holder_index(cs, mx, my) {
        Some(i) => {
            let s = snap_to_edge(&cs[i], mx, my);
            proof {
                let j = choose|j: int| first_holder(cs@, j, mx as int, my as int);
                lemma_first_holder_unique(cs@, i as int, j, mx as int, my as int);
                assert(!unheld(cs@, mx as int, my as int));
            }
            (s.0, s.1, true)
        },
        None => (mx, my, false),
    }
}

impl Potion {
    /// Points still in flight lie in the playfield, struck points near it,
    /// and the velocity is bounded.
    pub open spec fn wf(&self) -> bool {
        &&& -MAX_LAUNCH_SPEED <= self.vx <= MAX_LAUNCH_SPEED
        &&& -MAX_LAUNCH_SPEED <= self.vy <= POTION_MAX_FALL
        &&& if self.collided {
            near_field(self.x as int) && near_field(self.y as int)
        } else {
            in_field(self.x as int, self.y as int)
        }
        &&& if self.trace_collided {
            near_field(self.trace_x as int) && near_field(self.trace_y as int)
        } else {
            in_field(self.trace_x as int, self.trace_y as int)
        }
        &&& 0 <= self.rotation < 360
    }

    /// Fall speed after one tick of gravity, capped at `POTION_MAX_FALL`.
    pub open spec fn next_vy(&self) -> int {
        if self.vy + POTION_GRAVITY > POTION_MAX_FALL {
            POTION_MAX_FALL as int
        } else {
            self.vy + POTION_GRAVITY
        }
    }

    /// The potion after one tick through surfaces `cs`.
    pub open spec fn stepped(&self, cs: Seq<RectCollider>) -> Potion {
        let vy = self.next_vy();
        let m = if self.collided {
            (self.x as int, self.y as int, true)
        } else {
            advance(cs, self.x as int, self.y as int, self.vx as int, vy)
        };
        let t = if self.trace_collided {
            (self.trace_x as int, self.trace_y as int, true)
        } else {
            advance(cs, self.trace_x as int, self.trace_y as int, self.vx as int, vy)
        };
        Potion {
            x: m.0 as i64,
            y: m.1 as i64,
            collided: m.2,
            trace_x: t.0 as i64,
            trace_y: t.1 as i64,
            trace_collided: t.2,
            vy: vy as i64,
            rotation: ((self.rotation + POTION_SPIN) % 360) as i64,
            ..*self
        }
    }

    /// How the flight stands for potion `p` after its tick.
    pub open spec fn flight_of(p: Potion) -> Flight {
        if (!p.collided && !in_field(p.x as int, p.y as int)) || (!p.trace_collided && !in_field(
            p.trace_x as int,
            p.trace_y as int,
        )) {
            Flight::Lost
        } else if p.collided && p.trace_collided {
            Flight::Landed
        } else {
            Flight::Flying
        }
    }

    /// Throws a potion for `slot` from `(x, y)` toward the target offset
    /// `(dx, dy)`, as `launch_component` says; the trace point starts one
    /// pixel above.
    pub fn throw(slot: Slot, x: i64, y: i64, dx: i64, dy: i64) -> (r: Potion)
        requires
            in_field(x as int, y as int),
            in_field(x as int, y - PX),
            -AIM_LIMIT <= dx <= AIM_LIMIT,
            -AIM_LIMIT <= dy <= AIM_LIMIT,
        ensures
            r.wf(),
            exists|dist: int|
                #[trigger] is_isqrt(dx * dx + dy * dy, dist) && r.vx == launch_component(dx as int, dist)
                    && r.vy == launch_component(dy as int, dist),
            r == (Potion {
                slot,
                x,
                y,
                trace_x: x,
                trace_y: (y - PX) as i64,
                rotation: 0,
                thrown: true,
                collided: false,
                trace_collided: false,
                ..r
            }),
    {
        assert(dx * dx <= AIM_LIMIT * AIM_LIMIT) by (nonlinear_arith)
            requires
                -AIM_LIMIT <= dx <= AIM_LIMIT,
        ;
        assert(dy * dy <= AIM_LIMIT * AIM_LIMIT) by (nonlinear_arith)
            requires
                -AIM_LIMIT <= dy <= AIM_LIMIT,
        ;
        assert(dx * dx >= 0) by (nonlinear_arith);
        assert(dy * dy >= 0) by (nonlinear_arith);
        let sq = (dx * dx + dy * dy) as u64;
        let dist = isqrt(sq);
        assert(dist <= 2 * AIM_LIMIT) by (nonlinear_arith)
            requires
                dist * dist <= sq,
                sq <= 2 * AIM_LIMIT * AIM_LIMIT,
                dist >= 0,
        ;
        assert(-dist <= dx <= dist && -dist <= dy <= dist) by (nonlinear_arith)
            requires
                sq == dx * dx + dy * dy,
                sq < (dist + 1) * (dist + 1),
                dist >= 0,
        ;
        let vx = launch_part(dx, dist as i64);
        let vy = launch_part(dy, dist as i64);
        Potion {
            slot,
            x,
            y,
            trace_x: x,
            trace_y: y - PX,
            vx,
            vy,
            rotation: 0,
            thrown: true,
            collided: false,
            trace_collided: false,
        }
    }

    /// The direction of travel.
    pub open spec fn heading_of(&self) -> Aim {
        Aim { dx: self.vx, dy: self.vy }
    }

    pub fn heading(&self) -> (r: Aim)
        ensures
            r == self.heading_of(),
    {
        Aim { dx: self.vx, dy: self.vy }
    }

    /// One tick of flight through surfaces `cs`: gravity first, then each
    /// point still in the air moves and stops on the first surface it enters.
    /// Gives how the flight stands.
    pub fn step(&mut self, cs: &Vec<RectCollider>) -> (r: Flight)
        requires
            old(self).wf(),
            all_wf(cs@),
        ensures
            *final(self) == old(self).stepped(cs@),
            r == Potion::flight_of(*final(self)),
            r == Flight::Flying ==> final(self).wf(),
            r == Flight::Landed ==> near_field(final(self).x as int) && near_field(final(self).y as int)
                && near_field(final(self).trace_x as int) && near_field(final(self).trace_y as int),
    {
        let vy = if self.vy + POTION_GRAVITY > POTION_MAX_FALL {
            POTION_MAX_FALL
        } else {
            self.vy + POTION_GRAVITY
        };
        if !self.collided {
            let m = advance_point(cs, self.x, self.y, self.vx, vy);
            self.x = m.0;
            self.y = m.1;
            self.collided = m.2;
        }
        if !self.trace_collided {
            let t = advance_point(cs, self.trace_x, self.trace_y, self.vx, vy);
            self.trace_x = t.0;
            self.trace_y = t.1;
            self.trace_collided = t.2;
        }
        self.vy = vy;
        self.rotation = (self.rotation + POTION_SPIN) % 360;
        let main_lost = !self.collided && !(self.x > FIELD_LEFT && self.x < FIELD_RIGHT && self.y
            > FIELD_TOP && self.y < FIELD_BOTTOM);
        let trace_lost = !self.trace_collided && !(self.trace_x > FIELD_LEFT && self.trace_x
            < FIELD_RIGHT && self.trace_y > FIELD_TOP && self.trace_y < FIELD_BOTTOM);
        if main_lost || trace_lost {
            Flight::Lost
        } else if self.collided && self.trace_collided {
            Flight::Landed
        } else {
            Flight::Flying
        }
    }
}

impl PortalController {
    /// Throws a potion for `slot` from the body's wand position toward the
    /// point `(target_x, target_y)`; `None` when the wand position, or the
    /// pixel above it, lies outside the playfield.
    pub fn throw_potion(&self, slot: Slot, body: &PhysicsController, target_x: i64, target_y: i64) -> (r: Option<Potion>)
        requires
            body.wf(),
            -AIM_LIMIT / 2 <= target_x <= AIM_LIMIT / 2,
            -AIM_LIMIT / 2 <= target_y <= AIM_LIMIT / 2,
        ensures
            ({
                let ox = body.x + self.wand_x;
                let oy = body.y + self.wand_y;
                if in_field(ox, oy) && in_field(ox, oy - PX) {
                    r matches Some(p) && p.slot == slot && p.x == ox && p.y == oy && exists|dist: int|
                        #[trigger] is_isqrt(
                            (target_x - ox) * (target_x - ox) + (target_y - oy) * (target_y - oy),
                            dist,
                        ) && p.vx == launch_component(target_x - ox, dist) && p.vy
                            == launch_component(target_y - oy, dist)
                } else {
                    r is None
                }
            }),
            r matches Some(p) ==> p.wf(),
    {
        let ox = body.x + self.wand_x as i64;
        let oy = body.y + self.wand_y as i64;
        if !(ox > FIELD_LEFT && ox < FIELD_RIGHT && oy > FIELD_TOP && oy < FIELD_BOTTOM && oy - PX
            > FIELD_TOP) {
            return None;
        }
        let dx = target_x - ox;
        let dy = target_y - oy;
        let p = Potion::throw(slot, ox, oy, dx, dy);
        proof {
            let dist = choose|dist: int|
                #[trigger] is_isqrt(dx * dx + dy * dy, dist) && p.vx == launch_component(dx as int, dist)
                    && p.vy == launch_component(dy as int, dist);
            assert(is_isqrt(
                (target_x - ox) * (target_x - ox) + (target_y - oy) * (target_y - oy),
                dist,
            ));
        }
        Some(p)
    }

    /// Moves a thrown potion one tick through every surface; once both of its
    /// points have struck, they go to `place_portal` with the potion's
    /// heading, and the placement's outcome is given. Otherwise nothing else
    /// changes and `None` is given.
    pub fn fly_potion(&mut self, potion: &mut Potion, now: u64) -> (r: (Flight, Option<Placement>))
        requires
            old(self).wf(),
            old(potion).wf(),
        ensures
            *final(potion) == old(potion).stepped(old(self).surfaces()),
            r.0 == Potion::flight_of(*final(potion)),
            final(self).wf(),
            if r.0 == Flight::Landed {
                let (p, q) = (
                    (final(potion).x as int, final(potion).y as int),
                    (final(potion).trace_x as int, final(potion).trace_y as int),
                );
                &&& r.1 == Some(
                    old(self).placement_of(final(potion).slot, p, q, final(potion).heading_of()),
                )
                &&& *final(self) == old(self).placed(
                    final(potion).slot,
                    p,
                    q,
                    final(potion).heading_of(),
                    now,
                )
            } else {
                r.1 is None && *final(self) == *old(self)
            },
    {
        let cs = self.all_colliders();
        proof {
            lemma_surfaces_wf(*self);
        }
        let flight = potion.step(&cs);
        if flight == Flight::Landed {
            let placement = self.place_portal(
                potion.slot,
                (potion.x, potion.y),
                (potion.trace_x, potion.trace_y),
                potion.heading(),
                now,
            );
            (flight, Some(placement))
        } else {
            (flight, None)
        }
    }
}

} // verus!
