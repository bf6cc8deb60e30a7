//! Blocks the player can pick up, carry and drop, which fall onto obstacles.
use vstd::prelude::*;
use crate::physics_controller::{body_pos_ok, clamp};
use crate::player::Player;
use crate::raycast::all_wf;
use crate::rect_collider::{pos_ok, RectCollider};
use crate::units::{BODY_LIMIT, POS_LIMIT, PX, SPEED_LIMIT};

verus! {

/// A falling block stops on an obstacle only when the obstacle's top lies
/// above this line, the bottom of the screen.
pub const GROUND_LINE: i64 = 721 * PX;

/// How far above an obstacle's top edge a landed block's top comes to rest.
pub const REST_HEIGHT: i64 = 32 * PX;

/// How far a block is lifted when picked up.
pub const LIFT: i64 = 20 * PX;

/// The top edge of the last obstacle of `cs` that `r` touches, if any.
pub open spec fn last_touched_top(cs: Seq<RectCollider>, r: RectCollider) -> Option<int>
    decreases cs.len(),
{
    if cs.len() == 0 {
        None
    } else if cs.last().touches(&r) {
        Some(cs.last().y as int)
    } else {
        last_touched_top(cs.drop_last(), r)
    }
}

/// `v` limited to the range a block's position may take.
pub open spec fn saturate(v: int) -> int {
    clamp(v, -(BODY_LIMIT as int), BODY_LIMIT as int)
}

/// Limits a position to `[-BODY_LIMIT, BODY_LIMIT]`.
pub fn saturate_pos(v: i64) -> (r: i64)
    ensures
        r == saturate(v as int),
{
    if v < -BODY_LIMIT {
        -BODY_LIMIT
    } else if v > BODY_LIMIT {
        BODY_LIMIT
    } else {
        v
    }
}

/// The offset from `inner` to `outer`.
pub fn get_offset(inner: RectCollider, outer: RectCollider) -> (r: (i64, i64))
    requires
        inner.wf(),
        outer.wf(),
    ensures
        r.0 == outer.x - inner.x,
        r.1 == outer.y - inner.y,
{
    (outer.x - inner.x, outer.y - inner.y)
}

/// Top of the fixed ground strip along the bottom of the screen.
pub const GROUND_TOP: i64 = 656 * PX;

/// Width of the ground strip.
pub const GROUND_WIDTH: i64 = 1280 * PX;

/// Height of the ground strip.
pub const GROUND_HEIGHT: i64 = 64 * PX;

/// The fixed ground strip along the bottom of the screen.
pub open spec fn ground_strip() -> RectCollider {
    RectCollider { x: 0, y: GROUND_TOP, width: GROUND_WIDTH, height: GROUND_HEIGHT }
}

/// Whether a block with collider `future` would meet the fixed ground strip
/// along the bottom of the screen.
pub fn ground_collision(future: RectCollider) -> (r: bool)
    requires
        future.wf(),
    ensures
        r == future.touches(&ground_strip()),
{
    future.is_touching(&RectCollider::new(0, GROUND_TOP, GROUND_WIDTH, GROUND_HEIGHT))
}

/// A carryable block.
pub struct ObjectController {
    pub collider: RectCollider,
    pub obstacles: Vec<RectCollider>,
    pub carried: bool,
    pub in_air: bool,
    pub new_level: bool,
    pub fall_speed: i64,
    pub offset: (i64, i64),
    pub start_x: i64,
    pub start_y: i64,
}

impl ObjectController {
    pub open spec fn wf(&self) -> bool {
        &&& self.collider.wf()
        &&& body_pos_ok(self.collider.x as int)
        &&& body_pos_ok(self.collider.y as int)
        &&& all_wf(self.obstacles@)
        &&& 0 <= self.fall_speed <= SPEED_LIMIT
        &&& -2 * POS_LIMIT <= self.offset.0 <= 2 * POS_LIMIT
        &&& -2 * POS_LIMIT <= self.offset.1 <= 2 * POS_LIMIT
        &&& body_pos_ok(self.start_x as int)
        &&& body_pos_ok(self.start_y as int)
    }

    /// The block as it stands once a pending new-level reset is applied:
    /// back at its start position, in the air and not carried.
    pub open spec fn reset_applied(self) -> ObjectController {
        if self.new_level {
            ObjectController {
                new_level: false,
                carried: false,
                in_air: true,
                collider: RectCollider { x: self.start_x, y: self.start_y, ..self.collider },
                ..self
            }
        } else {
            self
        }
    }

    /// The block after one tick, with the carrying player's collider `pc`.
    pub open spec fn advanced(self, pc: RectCollider) -> ObjectController {
        let s = self.reset_applied();
        if s.carried {
            ObjectController {
                collider: RectCollider {
                    x: saturate(pc.x - s.offset.0) as i64,
                    y: saturate(pc.y - s.offset.1) as i64,
                    ..s.collider
                },
                ..s
            }
        } else if s.in_air {
            let f = if s.fall_speed + PX > SPEED_LIMIT {
                SPEED_LIMIT as int
            } else {
                s.fall_speed + PX
            };
            let probe = RectCollider { y: (s.collider.y + f) as i64, ..s.collider };
            match last_touched_top(s.obstacles@, probe) {
                Some(g) if g < GROUND_LINE => ObjectController {
                    collider: RectCollider { y: saturate(g - REST_HEIGHT) as i64, ..s.collider },
                    in_air: false,
                    fall_speed: 0,
                    ..s
                },
                _ => ObjectController {
                    collider: RectCollider { y: saturate(s.collider.y + f) as i64, ..s.collider },
                    fall_speed: f as i64,
                    ..s
                },
            }
        } else {
            s
        }
    }

    /// A block resting on the ground where `collider` puts it.
    pub fn new(collider: RectCollider) -> (r: ObjectController)
        ensures
            r.collider == collider,
            r.obstacles@ == Seq::<RectCollider>::empty(),
            !r.carried && !r.in_air && !r.new_level,
            r.fall_speed == 0,
            r.offset == (0i64, 0i64),
            r.start_x == 0 && r.start_y == 0,
    {
        ObjectController {
            collider,
            obstacles: Vec::new(),
            carried: false,
            in_air: false,
            new_level: false,
            fall_speed: 0,
            offset: (0, 0),
            start_x: 0,
            start_y: 0,
        }
    }

    pub fn x(&self) -> (r: i64)
        ensures
            r == self.collider.x,
    {
        self.collider.x
    }

    pub fn y(&self) -> (r: i64)
        ensures
            r == self.collider.y,
    {
        self.collider.y
    }

    pub fn carried(&self) -> (r: bool)
        ensures
            r == self.carried,
    {
        self.carried
    }

    pub fn in_air(&self) -> (r: bool)
        ensures
            r == self.in_air,
    {
        self.in_air
    }

    pub fn new_level(&self) -> (r: bool)
        ensures
            r == self.new_level,
    {
        self.new_level
    }

    pub fn fall_speed(&self) -> (r: i64)
        ensures
            r == self.fall_speed,
    {
        self.fall_speed
    }

    pub fn collider(&self) -> (r: RectCollider)
        ensures
            r == self.collider,
    {
        self.collider
    }

    pub fn reset_colliders(&mut self)
        ensures
            final(self).obstacles@ == Seq::<RectCollider>::empty(),
            *final(self) == (ObjectController { obstacles: final(self).obstacles, ..*old(self) }),
    {
        self.obstacles = Vec::new();
    }

    pub fn add_collider(&mut self, wall: RectCollider)
        ensures
            final(self).obstacles@ == old(self).obstacles@.push(wall),
            *final(self) == (ObjectController { obstacles: final(self).obstacles, ..*old(self) }),
    {
        self.obstacles.push(wall);
    }

    /// The player picks the block up: it is lifted by `LIFT` and keeps its
    /// offset from the player while carried.
    pub fn picked_up(&mut self, player: &Player)
        requires
            old(self).wf(),
            player.wf(),
        ensures
            ({
                let lifted = RectCollider {
                    y: saturate(old(self).collider.y - LIFT) as i64,
                    ..old(self).collider
                };
                *final(self) == (ObjectController {
                    carried: true,
                    in_air: true,
                    collider: lifted,
                    offset: ((player.collider.x - lifted.x) as i64, (player.collider.y - lifted.y) as i64),
                    ..*old(self)
                })
            }),
            final(self).wf(),
    {
        self.carried = true;
        self.in_air = true;
        let y = saturate_pos(self.collider.y - LIFT);
        self.collider.set_y(y);
        self.offset = get_offset(self.collider, player.collider);
    }

    /// The player lets go; the block falls from where it is.
    pub fn put_down(&mut self)
        ensures
            *final(self) == (ObjectController { carried: false, ..*old(self) }),
    {
        self.carried = false;
    }

    /// Sends the block back to its start on the next update.
    pub fn respawn(&mut self)
        ensures
            *final(self) == (ObjectController { new_level: true, ..*old(self) }),
    {
        self.new_level = true;
    }

    pub fn set_start_pos(&mut self, x: i64, y: i64)
        ensures
            *final(self) == (ObjectController { start_x: x, start_y: y, ..*old(self) }),
    {
        self.start_x = x;
        self.start_y = y;
    }

    /// One tick: a pending reset is applied; a carried block follows the
    /// player; a block in the air falls one pixel per tick faster, and
    /// comes to rest on the last obstacle it would touch when that
    /// obstacle's top is above `GROUND_LINE`.
    pub fn update(&mut self, player: &Player)
        requires
            old(self).wf(),
            player.wf(),
        ensures
            final(self).obstacles@ == old(self).obstacles@,
            *final(self) == (ObjectController {
                obstacles: final(self).obstacles,
                ..old(self).advanced(player.collider)
            }),
            final(self).wf(),
    {
        if self.new_level {
            self.new_level = false;
            self.carried = false;
            self.in_air = true;
            self.collider.set_x(self.start_x);
            self.collider.set_y(self.start_y);
        }
        if self.carried {
            let x = saturate_pos(player.collider.x - self.offset.0);
            let y = saturate_pos(player.collider.y - self.offset.1);
            self.collider.set_x(x);
            self.collider.set_y(y);
        } else if self.in_air {
            let f = if self.fall_speed + PX > SPEED_LIMIT {
                SPEED_LIMIT
            } else {
                self.fall_speed + PX
            };
            let probe = RectCollider::new(
                self.collider.x,
                self.collider.y + f,
                self.collider.width,
                self.collider.height,
            );
            let ghost cs = self.obstacles@;
            let n = self.obstacles.len();
            let mut ground: Option<i64> = None;
            let mut i: usize = 0;
            while i < n
                invariant
                    cs == self.obstacles@,
                    n == cs.len(),
                    0 <= i <= n,
                    all_wf(cs),
                    probe.wf(),
                    ground == match last_touched_top(cs.take(i as int), probe) {
                        Some(g) => Some(g as i64),
                        None => None,
                    },
                    ground matches Some(g) ==> pos_ok(g as int),
                    last_touched_top(cs.take(i as int), probe) matches Some(g) ==> pos_ok(g),
                decreases n - i,
            {
                proof {
                    assert(cs.take(i + 1).drop_last() =~= cs.take(i as int));
                    assert(cs.take(i + 1).last() == cs[i as int]);
                }
                if self.obstacles[i].is_touching(&probe) {
                    ground = Some(self.obstacles[i].y);
                }
                i = i + 1;
            }
            proof {
                assert(cs.take(n as int) =~= cs);
            }
            match ground {
                Some(g) if g < GROUND_LINE => {
                    let y = saturate_pos(g - REST_HEIGHT);
                    self.collider.set_y(y);
                    self.in_air = false;
                    self.fall_speed = 0;
                },
                _ => {
                    let y = saturate_pos(self.collider.y + f);
                    self.collider.set_y(y);
                    self.fall_speed = f;
                },
            }
        }
    }
}

} // verus!
