//! The kinematic body: position, velocity, gravity, jumps and collision
//! against solid colliders.
use vstd::prelude::*;
use crate::rect_collider::{pos_ok, size_ok, RectCollider};
use crate::units::{elapsed, cooldown_over, BODY_LIMIT, PX, SPEED_LIMIT, WORLD_RIGHT};

verus! {

/// Milliseconds that must pass between two jumps.
pub const JUMP_COOLDOWN_MS: u64 = 500;

/// How far below the body's feet the ground is sampled.
pub const FOOT_REACH: i64 = 7 * PX;

/// Clearance left between a landed body and the top edge it landed on.
pub const LANDING_GAP: i64 = 2 * PX;

/// A body moved by input, gravity and collisions.
#[derive(Debug)]
pub struct PhysicsController {
    pub x: i64,
    pub y: i64,
    pub width: i64,
    pub height: i64,
    pub speed: i64,
    pub max_speed: i64,
    pub acceleration: i64,
    pub jump_speed: i64,
    pub jumps_used: i8,
    pub last_jump_time: u64,
    pub max_jumps: i8,
    pub stop_speed: i64,
    pub fall_speed: i64,
    pub gravity: i64,
    pub max_fall_speed: i64,
    pub is_grounded: bool,
    pub can_move: bool,
    pub colliders: Vec<RectCollider>,
}

/// Whether a motion parameter is non-negative and in range.
pub open spec fn param_ok(v: int) -> bool {
    0 <= v && v <= SPEED_LIMIT
}

/// Whether a velocity component is in range.
pub open spec fn velocity_ok(v: int) -> bool {
    -SPEED_LIMIT <= v && v <= SPEED_LIMIT
}

/// Whether a body coordinate is in range.
pub open spec fn body_pos_ok(v: int) -> bool {
    -BODY_LIMIT <= v && v <= BODY_LIMIT
}

/// `v` limited to `[lo, hi]`.
pub open spec fn clamp(v: int, lo: int, hi: int) -> int {
    if v < lo {
        lo
    } else if v > hi {
        hi
    } else {
        v
    }
}

/// `v` moved toward zero by `step`, never past it.
pub open spec fn toward_zero(v: int, step: int) -> int {
    if v > 0 {
        if v - step < 0 {
            0
        } else {
            v - step
        }
    } else if v < 0 {
        if v + step > 0 {
            0
        } else {
            v + step
        }
    } else {
        0
    }
}

/// Some collider among the first `n` of `cs` touches `r`.
pub open spec fn touched_upto(cs: Seq<RectCollider>, n: int, r: RectCollider) -> bool {
    exists|j: int| 0 <= j < n && (#[trigger] cs[j]).touches(&r)
}

/// Among the first `n` of `cs`, one touches `r` while its top edge lies at or
/// above the top of `r`: `r` runs into it from below or from the side.
pub open spec fn bumped_upto(cs: Seq<RectCollider>, n: int, r: RectCollider) -> bool {
    exists|j: int| 0 <= j < n && (#[trigger] cs[j]).touches(&r) && cs[j].y <= r.y
}

/// Collider `c` is one that `r` comes down onto: they touch and its top edge
/// lies below the top of `r`.
pub open spec fn lands_on(c: RectCollider, r: RectCollider) -> bool {
    c.touches(&r) && r.y < c.y
}

/// Among the first `n` of `cs`, `top` is the highest top edge of those that
/// `r` comes down onto.
pub open spec fn is_landing_top(cs: Seq<RectCollider>, n: int, r: RectCollider, top: int) -> bool {
    &&& exists|j: int| 0 <= j < n && lands_on(#[trigger] cs[j], r) && cs[j].y == top
    &&& forall|j: int| 0 <= j < n && lands_on(#[trigger] cs[j], r) ==> top <= cs[j].y
}

/// Some collider among the first `n` of `cs` holds the point.
pub open spec fn held_upto(cs: Seq<RectCollider>, n: int, px: int, py: int) -> bool {
    exists|j: int| 0 <= j < n && (#[trigger] cs[j]).holds(px, py)
}

impl PhysicsController {
    /// Every field is in range and every solid collider is well formed.
    pub open spec fn wf(&self) -> bool {
        &&& body_pos_ok(self.x as int)
        &&& body_pos_ok(self.y as int)
        &&& size_ok(self.width as int)
        &&& size_ok(self.height as int)
        &&& velocity_ok(self.speed as int)
        &&& velocity_ok(self.fall_speed as int)
        &&& param_ok(self.max_speed as int)
        &&& param_ok(self.acceleration as int)
        &&& param_ok(self.jump_speed as int)
        &&& param_ok(self.stop_speed as int)
        &&& param_ok(self.gravity as int)
        &&& param_ok(self.max_fall_speed as int)
        &&& forall|i: int| 0 <= i < self.colliders@.len() ==> (#[trigger] self.colliders@[i]).wf()
    }

    /// Horizontal speed for this tick, after deceleration.
    pub open spec fn coasting_speed(&self) -> int {
        toward_zero(self.speed as int, self.stop_speed as int)
    }

    /// The body's rectangle moved horizontally by this tick's speed.
    pub open spec fn probe_x(&self) -> RectCollider {
        RectCollider {
            x: (self.x + self.coasting_speed()) as i64,
            y: self.y,
            width: self.width,
            height: self.height,
        }
    }

    /// The body's rectangle moved vertically by its fall speed.
    pub open spec fn probe_y(&self) -> RectCollider {
        RectCollider {
            x: self.x,
            y: (self.y + self.fall_speed) as i64,
            width: self.width,
            height: self.height,
        }
    }

    /// The point sampled for ground contact: centred under the body,
    /// `FOOT_REACH` below its feet.
    pub open spec fn foot(&self) -> (int, int) {
        (self.x + self.width / 2, self.y + self.height + FOOT_REACH)
    }

    /// Whether some solid collider holds the foot point.
    pub open spec fn supported(&self, cs: Seq<RectCollider>) -> bool {
        held_upto(cs, cs.len() as int, self.foot().0, self.foot().1)
    }

    /// Whether the horizontal move is blocked this tick.
    pub open spec fn blocked_x(&self, cs: Seq<RectCollider>) -> bool {
        touched_upto(cs, cs.len() as int, self.probe_x())
    }

    /// Whether the vertical move is blocked this tick. A body standing on
    /// ground may always move upward, so that it can jump off it.
    pub open spec fn blocked_y(&self, cs: Seq<RectCollider>) -> bool {
        touched_upto(cs, cs.len() as int, self.probe_y()) && !(
        self.supported(cs) && self.fall_speed < 0)
    }

    /// Whether the vertical probe comes down onto some collider.
    pub open spec fn landing(&self, cs: Seq<RectCollider>) -> bool {
        exists|j: int|
            0 <= j < cs.len() && lands_on(#[trigger] cs[j], self.probe_y())
    }

    /// The highest top edge the vertical probe comes down onto.
    pub open spec fn landing_top(&self, cs: Seq<RectCollider>) -> int {
        choose|t: int|
            is_landing_top(cs, cs.len() as int, self.probe_y(), t)
    }

    /// Fall speed once a collision from below or the side has stopped it.
    pub open spec fn checked_fall(&self, cs: Seq<RectCollider>) -> int {
        if bumped_upto(cs, cs.len() as int, self.probe_y()) {
            0
        } else {
            self.fall_speed as int
        }
    }

    /// Vertical position after this tick: set down on the landing edge if
    /// any, moved by the checked fall speed unless blocked, and kept within
    /// `BODY_LIMIT`.
    pub open spec fn next_y(&self, cs: Seq<RectCollider>) -> int {
        let base = if self.landing(cs) {
            self.landing_top(cs) - self.height - LANDING_GAP
        } else {
            self.y as int
        };
        let moved = if self.blocked_y(cs) {
            base
        } else {
            base + self.checked_fall(cs)
        };
        clamp(moved, -(BODY_LIMIT as int), BODY_LIMIT as int)
    }

    /// Horizontal position after this tick: moved and kept within the world
    /// unless blocked.
    pub open spec fn next_x(&self, cs: Seq<RectCollider>) -> int {
        if self.blocked_x(cs) {
            self.x as int
        } else {
            clamp(self.x + self.coasting_speed(), 0, WORLD_RIGHT as int)
        }
    }

    /// Fall speed after gravity, which adds `gravity` up to `max_fall_speed`.
    pub open spec fn accelerated_fall(&self, cs: Seq<RectCollider>) -> int {
        let f = self.checked_fall(cs);
        if f < self.max_fall_speed {
            if f + self.gravity > self.max_fall_speed {
                self.max_fall_speed as int
            } else {
                f + self.gravity
            }
        } else {
            f
        }
    }

    /// A supported body that would move downward has landed.
    pub open spec fn lands(&self, cs: Seq<RectCollider>) -> bool {
        self.supported(cs) && self.accelerated_fall(cs) > 0
    }

    /// The body after one tick of `update`, with `cs` as the solid colliders.
    pub open spec fn ticked_among(&self, cs: Seq<RectCollider>) -> PhysicsController {
        if !self.can_move {
            *self
        } else {
            PhysicsController {
                x: self.next_x(cs) as i64,
                y: self.next_y(cs) as i64,
                speed: self.coasting_speed() as i64,
                fall_speed: if self.lands(cs) {
                    0
                } else {
                    self.accelerated_fall(cs) as i64
                },
                jumps_used: if self.lands(cs) {
                    0
                } else {
                    self.jumps_used
                },
                is_grounded: self.supported(cs),
                ..*self
            }
        }
    }

    /// The body after one tick of `update`.
    pub open spec fn ticked(&self) -> PhysicsController {
        self.ticked_among(self.colliders@)
    }
}

/// One tick with no impulse keeps speeds within their bounds: a body with
/// `|speed| <= max_speed` and `|fall_speed| <= max_fall_speed` still has both
/// after `update`.
pub proof fn lemma_tick_keeps_speed_bounds(b: PhysicsController)
    requires
        b.wf(),
        -b.max_speed <= b.speed <= b.max_speed,
        -b.max_fall_speed <= b.fall_speed <= b.max_fall_speed,
    ensures
        -b.ticked().max_speed <= b.ticked().speed <= b.ticked().max_speed,
        -b.ticked().max_fall_speed <= b.ticked().fall_speed <= b.ticked().max_fall_speed,
{
}

/// A landing edge, when one exists, is the only value `landing_top` can give.
proof fn lemma_landing_top_unique(cs: Seq<RectCollider>, n: int, r: RectCollider, t: int)
    requires
        is_landing_top(cs, n, r, t),
    ensures
        (choose|u: int| is_landing_top(cs, n, r, u)) == t,
{
    let u = choose|u: int| is_landing_top(cs, n, r, u);
    assert(is_landing_top(cs, n, r, u));
    let ju = choose|j: int| 0 <= j < n && lands_on(#[trigger] cs[j], r) && cs[j].y == u;
    let jt = choose|j: int| 0 <= j < n && lands_on(#[trigger] cs[j], r) && cs[j].y == t;
    assert(t <= cs[ju].y);
    assert(u <= cs[jt].y);
}

/// Copies a list of colliders.
pub fn copy_colliders(cs: &Vec<RectCollider>) -> (r: Vec<RectCollider>)
    ensures
        r@ == cs@,
{
    let mut out: Vec<RectCollider> = Vec::new();
    let n = cs.len();
    let mut i: usize = 0;
    while i < n
        invariant
            n == cs@.len(),
            0 <= i <= n,
            out@ == cs@.subrange(0, i as int),
        decreases n - i,
    {
        out.push(cs[i]);
        i = i + 1;
        proof {
            assert(out@ =~= cs@.subrange(0, i as int));
        }
    }
    proof {
        assert(out@ =~= cs@);
    }
    out
}

impl PhysicsController {
    pub fn new(
        x: i64,
        y: i64,
        max_speed: i64,
        acceleration: i64,
        jump_speed: i64,
        max_jumps: i8,
        stop_speed: i64,
        gravity: i64,
        max_fall_speed: i64,
        colliders: Vec<RectCollider>,
        width: i64,
        height: i64,
        now: u64,
    ) -> (r: PhysicsController)
        ensures
            r == (PhysicsController {
                x,
                y,
                width,
                height,
                speed: 0,
                max_speed,
                acceleration,
                jump_speed,
                jumps_used: max_jumps,
                last_jump_time: now,
                max_jumps,
                stop_speed,
                fall_speed: 0,
                gravity,
                max_fall_speed,
                is_grounded: false,
                can_move: true,
                colliders,
            }),
    {
        PhysicsController {
            x,
            y,
            width,
            height,
            speed: 0,
            max_speed,
            acceleration,
            jump_speed,
            jumps_used: max_jumps,
            last_jump_time: now,
            max_jumps,
            stop_speed,
            fall_speed: 0,
            gravity,
            max_fall_speed,
            is_grounded: false,
            can_move: true,
            colliders,
        }
    }

    pub fn x(&self) -> (r: i64)
        ensures
            r == self.x,
    {
        self.x
    }

    pub fn y(&self) -> (r: i64)
        ensures
            r == self.y,
    {
        self.y
    }

    pub fn speed(&self) -> (r: i64)
        ensures
            r == self.speed,
    {
        self.speed
    }

    pub fn fall_speed(&self) -> (r: i64)
        ensures
            r == self.fall_speed,
    {
        self.fall_speed
    }

    pub fn is_grounded(&self) -> (r: bool)
        ensures
            r == self.is_grounded,
    {
        self.is_grounded
    }

    pub fn jumps_used(&self) -> (r: i8)
        ensures
            r == self.jumps_used,
    {
        self.jumps_used
    }

    /// A copy of the solid colliders the body collides with.
    pub fn colliders(&self) -> (r: Vec<RectCollider>)
        ensures
            r@ == self.colliders@,
    {
        copy_colliders(&self.colliders)
    }

    pub fn reset_jumps(&mut self)
        ensures
            *final(self) == (PhysicsController { jumps_used: 0, ..*old(self) }),
    {
        self.jumps_used = 0;
    }

    /// Stops all movement until `mobilize`.
    pub fn immobilize(&mut self)
        ensures
            *final(self) == (PhysicsController { can_move: false, ..*old(self) }),
    {
        self.can_move = false;
    }

    pub fn mobilize(&mut self)
        ensures
            *final(self) == (PhysicsController { can_move: true, ..*old(self) }),
    {
        self.can_move = true;
    }

    pub fn set_x(&mut self, x: i64)
        ensures
            *final(self) == (PhysicsController { x, ..*old(self) }),
    {
        self.x = x;
    }

    pub fn set_y(&mut self, y: i64)
        ensures
            *final(self) == (PhysicsController { y, ..*old(self) }),
    {
        self.y = y;
    }

    pub fn set_speed(&mut self, speed: i64)
        ensures
            *final(self) == (PhysicsController { speed, ..*old(self) }),
    {
        self.speed = speed;
    }

    pub fn set_fall_speed(&mut self, fall_speed: i64)
        ensures
            *final(self) == (PhysicsController { fall_speed, ..*old(self) }),
    {
        self.fall_speed = fall_speed;
    }

    pub fn set_jumps_used(&mut self, jumps_used: i8)
        ensures
            *final(self) == (PhysicsController { jumps_used, ..*old(self) }),
    {
        self.jumps_used = jumps_used;
    }

    pub fn reset_colliders(&mut self)
        ensures
            final(self).colliders@ == Seq::<RectCollider>::empty(),
            *final(self) == (PhysicsController { colliders: final(self).colliders, ..*old(self) }),
    {
        self.colliders = Vec::new();
    }

    pub fn add_collider(&mut self, new_collider: RectCollider)
        ensures
            final(self).colliders@ == old(self).colliders@.push(new_collider),
            *final(self) == (PhysicsController { colliders: final(self).colliders, ..*old(self) }),
    {
        self.colliders.push(new_collider);
    }

    /// Speeds up toward `max_speed` to the right by `acceleration`, stopping at
    /// the bound; a body already at or past it keeps its speed.
    pub fn accelerate_right(&mut self)
        requires
            old(self).wf(),
        ensures
            final(self).speed == if old(self).speed < old(self).max_speed {
                if old(self).speed + old(self).acceleration > old(self).max_speed {
                    old(self).max_speed
                } else {
                    (old(self).speed + old(self).acceleration) as i64
                }
            } else {
                old(self).speed
            },
            *final(self) == (PhysicsController { speed: final(self).speed, ..*old(self) }),
    {
        if self.speed < self.max_speed {
            let s = self.speed + self.acceleration;
            self.speed = if s > self.max_speed {
                self.max_speed
            } else {
                s
            };
        }
    }

    /// Speeds up toward `-max_speed` to the left by `acceleration`, stopping at
    /// the bound; a body already at or past it keeps its speed.
    pub fn accelerate_left(&mut self)
        requires
            old(self).wf(),
        ensures
            final(self).speed == if old(self).speed > -old(self).max_speed {
                if old(self).speed - old(self).acceleration < -old(self).max_speed {
                    (-old(self).max_speed) as i64
                } else {
                    (old(self).speed - old(self).acceleration) as i64
                }
            } else {
                old(self).speed
            },
            *final(self) == (PhysicsController { speed: final(self).speed, ..*old(self) }),
    {
        if self.speed > -self.max_speed {
            let s = self.speed - self.acceleration;
            self.speed = if s < -self.max_speed {
                -self.max_speed
            } else {
                s
            };
        }
    }

    /// Jumps when `JUMP_COOLDOWN_MS` have passed since the last jump and a
    /// jump is left: the body then rises at `jump_speed` and leaves the ground.
    pub fn jump(&mut self, now: u64)
        requires
            old(self).wf(),
        ensures
            if elapsed(old(self).last_jump_time, now, JUMP_COOLDOWN_MS) && old(self).jumps_used
                < old(self).max_jumps {
                *final(self) == (PhysicsController {
                    jumps_used: (old(self).jumps_used + 1) as i8,
                    fall_speed: (-old(self).jump_speed) as i64,
                    last_jump_time: now,
                    is_grounded: false,
                    ..*old(self)
                })
            } else {
                *final(self) == *old(self)
            },
    {
        if cooldown_over(self.last_jump_time, now, JUMP_COOLDOWN_MS) && self.jumps_used
            < self.max_jumps {
            self.jumps_used = self.jumps_used + 1;
            self.fall_speed = -self.jump_speed;
            self.last_jump_time = now;
            self.is_grounded = false;
        }
    }

    /// One tick of movement. Speed first decays toward zero by `stop_speed`.
    /// The body's rectangle is then probed one step ahead on each axis
    /// against every solid collider: a blocked horizontal move leaves `x`
    /// alone, a free one keeps `x` within the world; coming down onto
    /// colliders sets the body on the highest of their top edges, and running
    /// into one from below or the side stops the fall. Ground contact is read
    /// from the foot point. Gravity then adds `gravity` to the fall speed, up
    /// to `max_fall_speed`; a supported body that would sink stops and gets
    /// its jumps back. An immobilized body does not change.
    pub fn update(&mut self)
        requires
            old(self).wf(),
        ensures
            *final(self) == old(self).ticked(),
            final(self).wf(),
    {
        if !self.can_move {
            return;
        }
        let speed = if self.speed > 0 {
            if self.speed - self.stop_speed < 0 {
                0
            } else {
                self.speed - self.stop_speed
            }
        } else if self.speed < 0 {
            if self.speed + self.stop_speed > 0 {
                0
            } else {
                self.speed + self.stop_speed
            }
        } else {
            0
        };
        let probe_x = RectCollider::new(self.x + speed, self.y, self.width, self.height);
        let probe_y = RectCollider::new(self.x, self.y + self.fall_speed, self.width, self.height);
        let foot_x = self.x + self.width / 2;
        let foot_y = self.y + self.height + FOOT_REACH;
        proof {
            assert(probe_x == self.probe_x());
            assert(probe_y == self.probe_y());
        }
        let mut blocked_x = false;
        let mut hit_y = false;
        let mut bumped = false;
        let mut supported = false;
        let mut top: Option<i64> = None;
        let n = self.colliders.len();
        let ghost cs = self.colliders@;
        let mut i: usize = 0;
        while i < n
            invariant
                self.wf(),
                self.can_move,
                cs == self.colliders@,
                n == cs.len(),
                0 <= i <= n,
                probe_x == self.probe_x(),
                probe_y == self.probe_y(),
                probe_x.wf(),
                probe_y.wf(),
                (foot_x as int, foot_y as int) == self.foot(),
                blocked_x == touched_upto(cs, i as int, probe_x),
                hit_y == touched_upto(cs, i as int, probe_y),
                bumped == bumped_upto(cs, i as int, probe_y),
                supported == held_upto(cs, i as int, foot_x as int, foot_y as int),
                top is None <==> !exists|j: int|
                    0 <= j < i && lands_on(#[trigger] cs[j], probe_y),
                top is Some ==> is_landing_top(cs, i as int, probe_y, top->0 as int),
                top is Some ==> pos_ok(top->0 as int),
            decreases n - i,
        {
            let c = self.colliders[i];
            let ghost k = i as int;
            let ghost top0 = top;
            if c.is_touching(&probe_x) {
                blocked_x = true;
            }
            if c.is_touching(&probe_y) {
                hit_y = true;
                if probe_y.y < c.y {
                    let t = match top {
                        Some(t) => if t <= c.y {
                            t
                        } else {
                            c.y
                        },
                        None => c.y,
                    };
                    top = Some(t);
                } else {
                    bumped = true;
                }
            }
            if c.contains_point(foot_x, foot_y) {
                supported = true;
            }
            i = i + 1;
            proof {
                assert(cs[k] == c);
                assert forall|j: int| 0 <= j < i && lands_on(#[trigger] cs[j], probe_y) implies (
                top->0 as int) <= cs[j].y by {
                    if j < k {
                        assert(is_landing_top(cs, k, probe_y, top0->0 as int));
                    }
                }
            }
        }
        proof {
            assert(cs.len() == n);
        }
        let blocked_y = hit_y && !(supported && self.fall_speed < 0);
        let fall = if bumped {
            0
        } else {
            self.fall_speed
        };
        let base = match top {
            Some(t) => {
                proof {
                    lemma_landing_top_unique(cs, n as int, probe_y, t as int);
                }
                t - self.height - LANDING_GAP
            },
            None => self.y,
        };
        let moved = if blocked_y {
            base
        } else {
            base + fall
        };
        let ny = if moved < -BODY_LIMIT {
            -BODY_LIMIT
        } else if moved > BODY_LIMIT {
            BODY_LIMIT
        } else {
            moved
        };
        let nx = if blocked_x {
            self.x
        } else {
            let moved_x = self.x + speed;
            if moved_x < 0 {
                0
            } else if moved_x > WORLD_RIGHT {
                WORLD_RIGHT
            } else {
                moved_x
            }
        };
        let pulled = if fall < self.max_fall_speed {
            if fall + self.gravity > self.max_fall_speed {
                self.max_fall_speed
            } else {
                fall + self.gravity
            }
        } else {
            fall
        };
        self.x = nx;
        self.y = ny;
        self.speed = speed;
        self.is_grounded = supported;
        if supported && pulled > 0 {
            self.jumps_used = 0;
            self.fall_speed = 0;
        } else {
            self.fall_speed = pulled;
        }
    }

    /// One tick of `update` with `extra` as one more solid collider for this
    /// tick only.
    pub fn update_with(&mut self, extra: RectCollider)
        requires
            old(self).wf(),
            extra.wf(),
        ensures
            final(self).colliders@ == old(self).colliders@,
            *final(self) == (PhysicsController {
                colliders: final(self).colliders,
                ..old(self).ticked_among(old(self).colliders@.push(extra))
            }),
            final(self).wf(),
    {
        self.colliders.push(extra);
        self.update();
        let _ = self.colliders.pop();
    }
}

} // verus!
