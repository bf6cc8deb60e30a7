//! The pair of linked portals: placement on surfaces, and teleportation of a
//! body from one portal to the other.
use vstd::prelude::*;
use crate::physics_controller::{body_pos_ok, copy_colliders, velocity_ok, PhysicsController};
use crate::raycast::{all_wf, escapes_at, hits_at, Aim, Raycast, REACH_LIMIT};
use crate::rect_collider::RectCollider;
use crate::units::{cooldown_over, elapsed, PX};

verus! {

/// Milliseconds that must pass between two portal placements.
pub const PLACEMENT_COOLDOWN_MS: u64 = 100;

/// Milliseconds during which a portal that was just entered or left cannot
/// be entered.
pub const TELEPORT_COOLDOWN_MS: u64 = 500;

/// Coordinate of a closed portal, off the playfield on both axes.
pub const CLOSED_POS: i64 = -100 * PX;

/// A new portal may not be placed this close to the centre of the other one.
pub const MIN_SEPARATION: i64 = 130 * PX;

/// Thickness of an open portal's collider, across the surface it is on.
pub const PORTAL_THICKNESS: i64 = 40 * PX;

/// Length of an open portal's collider, along the surface it is on.
pub const PORTAL_SPAN: i64 = 70 * PX;

/// Width of a closed portal's collider.
pub const CLOSED_WIDTH: i64 = 50 * PX;

/// Height of a closed portal's collider.
pub const CLOSED_HEIGHT: i64 = 90 * PX;

/// Largest magnitude a portal's position may take.
pub const PORTAL_LIMIT: i64 = 1_000_000_000;

/// One of the two portals of the pair.
#[derive(Clone, Copy, Debug, PartialEq, Eq, Structural)]
pub enum Slot {
    Blue,
    Orange,
}

impl Slot {
    /// The portal linked to this one.
    pub open spec fn partner(self) -> Slot {
        match self {
            Slot::Blue => Slot::Orange,
            Slot::Orange => Slot::Blue,
        }
    }

    pub fn other(self) -> (r: Slot)
        ensures
            r == self.partner(),
    {
        match self {
            Slot::Blue => Slot::Orange,
            Slot::Orange => Slot::Blue,
        }
    }
}

/// The surface a portal sits on. A portal on a left wall faces right, one on
/// the ceiling faces down, and so on; a sloped portal has no cardinal facing.
#[derive(Clone, Copy, Debug, PartialEq, Eq, Structural)]
pub enum Orientation {
    LeftWall,
    Ceiling,
    RightWall,
    Floor,
    Sloped,
}

impl Orientation {
    /// The rotation in degrees: 0, 90, 180 and 270 for the four cardinal
    /// surfaces; -1 for a slope.
    pub open spec fn degrees(self) -> int {
        match self {
            Orientation::LeftWall => 0,
            Orientation::Ceiling => 90,
            Orientation::RightWall => 180,
            Orientation::Floor => 270,
            Orientation::Sloped => -1,
        }
    }

    /// Whether the portal stands upright, on a wall.
    pub open spec fn upright(self) -> bool {
        self == Orientation::LeftWall || self == Orientation::RightWall
    }

    /// The rotation in degrees, or -1 for a slope.
    pub fn rotation_degrees(self) -> (r: i32)
        ensures
            r == self.degrees(),
    {
        match self {
            Orientation::LeftWall => 0,
            Orientation::Ceiling => 90,
            Orientation::RightWall => 180,
            Orientation::Floor => 270,
            Orientation::Sloped => -1,
        }
    }
}

/// The turn, in degrees, that a body makes between entering a portal facing
/// `entry` and leaving one facing `exit`: the difference between the exit's
/// rotation and the reverse of the entry's, in `[0, 360)`.
pub open spec fn turn(entry: Orientation, exit: Orientation) -> int {
    (exit.degrees() - (entry.degrees() + 180) + 720) % 360
}

/// Velocity `(speed, fall_speed)` after passing from a portal facing `entry`
/// to one facing `exit`. No turn passes it through; a quarter turn either way
/// swaps the axes with the signs the exit surface calls for; a half turn
/// reverses the axis across the exit surface. Slopes pass it through.
pub open spec fn remap(entry: Orientation, exit: Orientation, speed: int, fall: int) -> (int, int) {
    if entry == Orientation::Sloped || exit == Orientation::Sloped {
        (speed, fall)
    } else if turn(entry, exit) == 90 || turn(entry, exit) == 270 {
        match exit {
            Orientation::LeftWall => (fall, -speed),
            Orientation::Ceiling => (-fall, speed),
            Orientation::RightWall => (-fall, -speed),
            _ => (fall, speed),
        }
    } else if turn(entry, exit) == 180 {
        if exit.upright() {
            (-speed, fall)
        } else {
            (speed, -fall)
        }
    } else {
        (speed, fall)
    }
}

/// Where a body leaving through a portal at `(x, y)` facing `exit` is put:
/// beside a wall portal, below a ceiling portal, above any other.
pub open spec fn exit_point(exit: Orientation, x: int, y: int) -> (int, int) {
    match exit {
        Orientation::LeftWall => (x + 30 * PX, y + 5 * PX),
        Orientation::RightWall => (x - 60 * PX, y + 5 * PX),
        Orientation::Ceiling => (x + 5 * PX, y + 60 * PX),
        _ => (x + 5 * PX, y - 90 * PX),
    }
}

/// The collider of a portal opened at `(x, y)`: tall on a wall, wide elsewhere.
pub open spec fn portal_collider(x: int, y: int, rotation: Orientation) -> RectCollider {
    if rotation.upright() {
        RectCollider { x: (x + 10 * PX) as i64, y: (y + 15 * PX) as i64, width: PORTAL_THICKNESS, height: PORTAL_SPAN }
    } else {
        RectCollider { x: (x - 5 * PX) as i64, y: (y + 45 * PX) as i64, width: PORTAL_SPAN, height: PORTAL_THICKNESS }
    }
}

/// The collider of a closed portal.
pub open spec fn closed_collider() -> RectCollider {
    RectCollider { x: CLOSED_POS, y: CLOSED_POS, width: CLOSED_WIDTH, height: CLOSED_HEIGHT }
}

/// One portal: where it is, the surface it is on, the collider that takes
/// bodies in, and when it was last used.
#[derive(Clone, Copy, Debug, PartialEq, Eq, Structural)]
pub struct Portal {
    pub color_num: i32,
    pub x: i64,
    pub y: i64,
    pub rotation: Orientation,
    pub collider: RectCollider,
    pub last_used: u64,
}

/// Whether a portal coordinate is in range.
pub open spec fn portal_pos_ok(v: int) -> bool {
    -PORTAL_LIMIT <= v && v <= PORTAL_LIMIT
}

impl Portal {
    pub open spec fn wf(&self) -> bool {
        portal_pos_ok(self.x as int) && portal_pos_ok(self.y as int) && self.collider.wf()
    }

    /// A portal is open when it lies right of and below the origin; a closed
    /// portal is parked off the playfield.
    pub open spec fn opened(&self) -> bool {
        self.x > 0 && self.y > 0
    }

    /// The portal opened at `(x, y)` on a surface facing `rotation`.
    pub open spec fn opened_at(self, x: int, y: int, rotation: Orientation) -> Portal {
        Portal { x: x as i64, y: y as i64, rotation, collider: portal_collider(x, y, rotation), ..self }
    }

    /// The portal parked off the playfield.
    pub open spec fn parked(self) -> Portal {
        Portal { x: CLOSED_POS, y: CLOSED_POS, rotation: Orientation::LeftWall, collider: closed_collider(), ..self }
    }

    /// A closed portal of the given colour, last used at `now`.
    pub fn new(color_num: i32, now: u64) -> (r: Portal)
        ensures
            r == (Portal {
                color_num,
                x: CLOSED_POS,
                y: CLOSED_POS,
                rotation: Orientation::LeftWall,
                collider: closed_collider(),
                last_used: now,
            }),
            r.wf(),
            !r.opened(),
    {
        Portal {
            color_num,
            x: CLOSED_POS,
            y: CLOSED_POS,
            rotation: Orientation::LeftWall,
            collider: RectCollider::new(CLOSED_POS, CLOSED_POS, CLOSED_WIDTH, CLOSED_HEIGHT),
            last_used: now,
        }
    }

    pub fn color(&self) -> (r: i32)
        ensures
            r == self.color_num,
    {
        self.color_num
    }

    pub fn x(&self) -> (r: i64)
        ensures
            r == self.x,
    {
        self.x
    }

    pub fn y(&self) -> (r: i64)
        ensures
            r == self.y,
    {
        self.y
    }

    pub fn rotation(&self) -> (r: Orientation)
        ensures
            r == self.rotation,
    {
        self.rotation
    }

    pub fn collider(&self) -> (r: RectCollider)
        ensures
            r == self.collider,
    {
        self.collider
    }

    pub fn last_used(&self) -> (r: u64)
        ensures
            r == self.last_used,
    {
        self.last_used
    }

    /// Marks the portal as used at `now`, which starts its cooldown.
    pub fn reset_last_used(&mut self, now: u64)
        ensures
            *final(self) == (Portal { last_used: now, ..*old(self) }),
    {
        self.last_used = now;
    }

    pub fn is_open(&self) -> (r: bool)
        ensures
            r == self.opened(),
    {
        self.x > 0 && self.y > 0
    }

    /// Opens the portal at `(x, y)` on a surface facing `rotation`, with the
    /// collider that orientation calls for.
    pub fn open(&mut self, x: i64, y: i64, rotation: Orientation)
        requires
            portal_pos_ok(x as int),
            portal_pos_ok(y as int),
        ensures
            *final(self) == old(self).opened_at(x as int, y as int, rotation),
            old(self).wf() ==> final(self).wf(),
    {
        self.x = x;
        self.y = y;
        self.rotation = rotation;
        let upright = match rotation {
            Orientation::LeftWall => true,
            Orientation::RightWall => true,
            _ => false,
        };
        if upright {
            self.collider = RectCollider::new(x + 10 * PX, y + 15 * PX, PORTAL_THICKNESS, PORTAL_SPAN);
        } else {
            self.collider = RectCollider::new(x - 5 * PX, y + 45 * PX, PORTAL_SPAN, PORTAL_THICKNESS);
        }
    }

    /// Closes the portal by parking it off the playfield.
    pub fn close(&mut self)
        ensures
            *final(self) == old(self).parked(),
            old(self).wf() ==> final(self).wf(),
            !final(self).opened(),
    {
        self.x = CLOSED_POS;
        self.y = CLOSED_POS;
        self.rotation = Orientation::LeftWall;
        self.collider = RectCollider::new(CLOSED_POS, CLOSED_POS, CLOSED_WIDTH, CLOSED_HEIGHT);
    }
}

/// What became of a request to place a portal.
#[derive(Clone, Copy, Debug, PartialEq, Eq, Structural)]
pub enum Placement {
    /// The portal was opened on the struck surface.
    Placed,
    /// The contact point lay too close to the other, open portal.
    TooClose,
    /// The contact point lay on a surface that takes no portals.
    InvalidSurface,
    /// A ray left the playfield without striking anything.
    NoSurface,
    /// The wand was frozen or the placement cooldown had not run out.
    NotReady,
}

/// The surface between two contact points a step apart: the same height
/// means a floor (when aiming down) or a ceiling, the same column a left
/// wall (when aiming left) or a right wall; anything else is a slope.
pub open spec fn surface_of(p: (int, int), q: (int, int), aim: Aim) -> Orientation {
    if p.1 == q.1 {
        if aim.dy > 0 {
            Orientation::Floor
        } else {
            Orientation::Ceiling
        }
    } else if p.0 == q.0 {
        if aim.dx < 0 {
            Orientation::LeftWall
        } else {
            Orientation::RightWall
        }
    } else {
        Orientation::Sloped
    }
}

/// Classifies the surface between two contact points, as `surface_of` says.
pub fn classify_surface(p: (i64, i64), q: (i64, i64), aim: Aim) -> (r: Orientation)
    ensures
        r == surface_of((p.0 as int, p.1 as int), (q.0 as int, q.1 as int), aim),
{
    if p.1 == q.1 {
        if aim.dy > 0 {
            Orientation::Floor
        } else {
            Orientation::Ceiling
        }
    } else if p.0 == q.0 {
        if aim.dx < 0 {
            Orientation::LeftWall
        } else {
            Orientation::RightWall
        }
    } else {
        Orientation::Sloped
    }
}

/// Whether a contact point lies within `MIN_SEPARATION` of the centre of a
/// portal at `(x, y)`.
pub open spec fn near_portal(p: (int, int), x: int, y: int) -> bool {
    let dx = p.0 - (x + 30 * PX);
    let dy = p.1 - (y + 50 * PX);
    dx * dx + dy * dy < MIN_SEPARATION * MIN_SEPARATION
}

/// The small square sampled around a contact point to test the surface.
pub open spec fn contact_marker(p: (int, int)) -> RectCollider {
    RectCollider { x: (p.0 - MARKER_HALF) as i64, y: (p.1 - MARKER_HALF) as i64, width: MARKER_SIZE, height: MARKER_SIZE }
}

/// Side of the square sampled around a contact point.
pub const MARKER_SIZE: i64 = 5 * PX;

/// Half the side of that square.
pub const MARKER_HALF: i64 = 250;

/// Whether a point is a contact point a ray or a projectile can give.
pub open spec fn reachable(p: (int, int)) -> bool {
    -REACH_LIMIT <= p.0 <= REACH_LIMIT && -REACH_LIMIT <= p.1 <= REACH_LIMIT
}

/// The outcome a ray cast from `(sx, sy)` along `aim` through `cs` has: a hit
/// at the given contact point, or leaving the playfield.
pub open spec fn ray_gives(sx: int, sy: int, aim: Aim, cs: Seq<RectCollider>, r: Option<(int, int)>) -> bool {
    match r {
        Some(q) => exists|k: int| #[trigger] hits_at(sx, sy, aim, cs, k, q),
        None => exists|k: int| #[trigger] escapes_at(sx, sy, aim, cs, k),
    }
}

/// A contact point as integers.
pub open spec fn widen(o: Option<(i64, i64)>) -> Option<(int, int)> {
    match o {
        Some(q) => Some((q.0 as int, q.1 as int)),
        None => None,
    }
}

/// What `Raycast::cast` promises, restated over `ray_gives`.
proof fn lemma_cast_gives(ray: Raycast, r: Option<(i64, i64)>)
    requires
        match r {
            Some(q) => exists|k: int|
                #[trigger] hits_at(
                    ray.start_x as int,
                    ray.start_y as int,
                    ray.aim,
                    ray.colliders@,
                    k,
                    (q.0 as int, q.1 as int),
                ),
            None => exists|k: int|
                #[trigger] escapes_at(
                    ray.start_x as int,
                    ray.start_y as int,
                    ray.aim,
                    ray.colliders@,
                    k,
                ),
        },
    ensures
        ray_gives(ray.start_x as int, ray.start_y as int, ray.aim, ray.colliders@, widen(r)),
{
    let (sx, sy, cs) = (ray.start_x as int, ray.start_y as int, ray.colliders@);
    match r {
        Some(q) => {
            let k = choose|k: int| #[trigger] hits_at(sx, sy, ray.aim, cs, k, (q.0 as int, q.1 as int));
            assert(widen(r) == Some((q.0 as int, q.1 as int)));
            let w = (q.0 as int, q.1 as int);
            assert(hits_at(sx, sy, ray.aim, cs, k, w));
            assert(widen(r)->0 == w);
        },
        None => {
            let k = choose|k: int| #[trigger] escapes_at(sx, sy, ray.aim, cs, k);
            assert(escapes_at(sx, sy, ray.aim, cs, k));
        },
    }
}

/// The pair of portals, the wand that places them, and the surfaces they can
/// and cannot be placed on.
pub struct PortalController {
    pub wand_x: i32,
    pub wand_y: i32,
    pub aim: Aim,
    pub blue: Portal,
    pub orange: Portal,
    pub should_rotate: bool,
    pub last_portal_used: Slot,
    pub last_portal_time: u64,
    pub valid_portal_surfaces: Vec<RectCollider>,
    pub invalid_portal_surfaces: Vec<RectCollider>,
}

impl PortalController {
    pub open spec fn wf(&self) -> bool {
        &&& self.aim.wf()
        &&& self.blue.wf()
        &&& self.orange.wf()
        &&& all_wf(self.valid_portal_surfaces@)
        &&& all_wf(self.invalid_portal_surfaces@)
    }

    /// The portal in `slot`.
    pub open spec fn portal_of(&self, slot: Slot) -> Portal {
        match slot {
            Slot::Blue => self.blue,
            Slot::Orange => self.orange,
        }
    }

    /// The same controller with the portal in `slot` replaced.
    pub open spec fn with_portal(self, slot: Slot, p: Portal) -> PortalController {
        match slot {
            Slot::Blue => PortalController { blue: p, ..self },
            Slot::Orange => PortalController { orange: p, ..self },
        }
    }

    /// Every surface, portal-valid ones first.
    pub open spec fn surfaces(&self) -> Seq<RectCollider> {
        self.valid_portal_surfaces@ + self.invalid_portal_surfaces@
    }

    /// Whether the marker around `p` touches a surface that takes no portals.
    pub open spec fn on_invalid_surface(&self, p: (int, int)) -> bool {
        exists|i: int|
            0 <= i < self.invalid_portal_surfaces@.len() && (#[trigger] self.invalid_portal_surfaces@[i]).touches(
                &contact_marker(p),
            )
    }

    /// The same controller, marked as having placed `slot` at `now`.
    pub open spec fn stamped(self, slot: Slot, now: u64) -> PortalController {
        PortalController { last_portal_used: slot, last_portal_time: now, ..self }
    }

    /// What placing `slot` at contact point `p`, with `q` the contact point a
    /// step above it, gives.
    pub open spec fn placement_of(&self, slot: Slot, p: (int, int), q: (int, int), aim: Aim) -> Placement {
        let other = self.portal_of(slot.partner());
        if other.opened() && near_portal(p, other.x as int, other.y as int) {
            Placement::TooClose
        } else if self.on_invalid_surface(p) {
            Placement::InvalidSurface
        } else {
            Placement::Placed
        }
    }

    /// The controller after placing `slot` at `p`, with `q` a step above it.
    pub open spec fn placed(self, slot: Slot, p: (int, int), q: (int, int), aim: Aim, now: u64) -> PortalController {
        match self.placement_of(slot, p, q, aim) {
            Placement::TooClose => self,
            Placement::InvalidSurface => self,
            _ => self.with_portal(
                slot,
                self.portal_of(slot).opened_at(p.0 - 30 * PX, p.1 - 50 * PX, surface_of(p, q, aim)),
            ).stamped(slot, now),
        }
    }

    /// Both portals are open.
    pub open spec fn linked(&self) -> bool {
        self.blue.opened() && self.orange.opened()
    }

    /// A body with rectangle `r` enters the portal in `slot` at `now`: both
    /// portals are open, that portal's cooldown has run out, and `r` touches
    /// its collider.
    pub open spec fn enters(&self, slot: Slot, r: RectCollider, now: u64) -> bool {
        &&& self.linked()
        &&& elapsed(self.portal_of(slot).last_used, now, TELEPORT_COOLDOWN_MS)
        &&& r.touches(&self.portal_of(slot).collider)
    }

    /// The portal a body with rectangle `r` goes through at `now`: blue
    /// before orange.
    pub open spec fn entry_for(&self, r: RectCollider, now: u64) -> Option<Slot> {
        if self.enters(Slot::Blue, r, now) {
            Some(Slot::Blue)
        } else if self.enters(Slot::Orange, r, now) {
            Some(Slot::Orange)
        } else {
            None
        }
    }

    /// The controller after a body went in through `slot` at `now`: the exit
    /// portal's cooldown starts over.
    pub open spec fn after_transit(self, slot: Slot, now: u64) -> PortalController {
        self.with_portal(slot.partner(), Portal { last_used: now, ..self.portal_of(slot.partner()) })
    }

    /// `body` after going in through `slot`: put at the exit's exit point,
    /// velocity remapped, off the ground.
    pub open spec fn carried(&self, slot: Slot, body: PhysicsController) -> PhysicsController {
        let entry = self.portal_of(slot);
        let exit = self.portal_of(slot.partner());
        let at = exit_point(exit.rotation, exit.x as int, exit.y as int);
        let v = remap(entry.rotation, exit.rotation, body.speed as int, body.fall_speed as int);
        PhysicsController {
            x: at.0 as i64,
            y: at.1 as i64,
            speed: v.0 as i64,
            fall_speed: v.1 as i64,
            is_grounded: false,
            ..body
        }
    }
}

/// The rectangle a body occupies.
pub open spec fn body_rect(b: PhysicsController) -> RectCollider {
    RectCollider { x: b.x, y: b.y, width: b.width, height: b.height }
}

/// Exact turn between two cardinal orientations, from their rotations.
fn turn_degrees(entry: Orientation, exit: Orientation) -> (r: i32)
    requires
        entry != Orientation::Sloped,
        exit != Orientation::Sloped,
    ensures
        r == turn(entry, exit),
{
    (exit.rotation_degrees() - (entry.rotation_degrees() + 180) + 720) % 360
}

/// Velocity after passing from a portal facing `entry` to one facing `exit`,
/// as `remap` says.
pub fn remap_velocity(entry: Orientation, exit: Orientation, speed: i64, fall: i64) -> (r: (i64, i64))
    requires
        velocity_ok(speed as int),
        velocity_ok(fall as int),
    ensures
        (r.0 as int, r.1 as int) == remap(entry, exit, speed as int, fall as int),
{
    if entry == Orientation::Sloped || exit == Orientation::Sloped {
        return (speed, fall);
    }
    let t = turn_degrees(entry, exit);
    if t == 90 || t == 270 {
        match exit {
            Orientation::LeftWall => (fall, -speed),
            Orientation::Ceiling => (-fall, speed),
            Orientation::RightWall => (-fall, -speed),
            _ => (fall, speed),
        }
    } else if t == 180 {
        match exit {
            Orientation::LeftWall => (-speed, fall),
            Orientation::RightWall => (-speed, fall),
            _ => (speed, -fall),
        }
    } else {
        (speed, fall)
    }
}

/// Where a body leaving through a portal is put, as `exit_point` says.
pub fn exit_position(exit: &Portal) -> (r: (i64, i64))
    requires
        exit.wf(),
    ensures
        (r.0 as int, r.1 as int) == exit_point(exit.rotation, exit.x as int, exit.y as int),
{
    match exit.rotation {
        Orientation::LeftWall => (exit.x + 30 * PX, exit.y + 5 * PX),
        Orientation::RightWall => (exit.x - 60 * PX, exit.y + 5 * PX),
        Orientation::Ceiling => (exit.x + 5 * PX, exit.y + 60 * PX),
        _ => (exit.x + 5 * PX, exit.y - 90 * PX),
    }
}

/// Whether a contact point lies too close to a portal, as `near_portal` says.
pub fn is_near_portal(p: (i64, i64), portal: &Portal) -> (r: bool)
    requires
        reachable((p.0 as int, p.1 as int)),
        portal.wf(),
    ensures
        r == near_portal((p.0 as int, p.1 as int), portal.x as int, portal.y as int),
{
    let dx = (p.0 as i128) - (portal.x as i128 + 30 * PX as i128);
    let dy = (p.1 as i128) - (portal.y as i128 + 50 * PX as i128);
    proof {
        assert(dx * dx <= 4_000_000_000_000_000_000) by (nonlinear_arith)
            requires
                -2_000_000_000 <= dx <= 2_000_000_000,
        ;
        assert(dy * dy <= 4_000_000_000_000_000_000) by (nonlinear_arith)
            requires
                -2_000_000_000 <= dy <= 2_000_000_000,
        ;
        assert(dx * dx >= 0) by (nonlinear_arith);
        assert(dy * dy >= 0) by (nonlinear_arith);
    }
    let m: i128 = MIN_SEPARATION as i128;
    assert(m == 13_000);
    assert(m * m == 169_000_000) by (nonlinear_arith)
        requires
            m == 13_000,
    ;
    dx * dx + dy * dy < m * m
}

/// The rectangle a body occupies.
pub fn body_collider(body: &PhysicsController) -> (r: RectCollider)
    requires
        body.wf(),
    ensures
        r == body_rect(*body),
        r.wf(),
{
    RectCollider::new(body.x, body.y, body.width, body.height)
}

/// Whether the marker around `p` touches a surface of `cs`.
fn marker_touches_any(cs: &Vec<RectCollider>, p: (i64, i64)) -> (r: bool)
    requires
        all_wf(cs@),
        reachable((p.0 as int, p.1 as int)),
    ensures
        r == exists|i: int|
            0 <= i < cs@.len() && (#[trigger] cs@[i]).touches(&contact_marker((p.0 as int, p.1 as int))),
{
    let marker = RectCollider::new(p.0 - MARKER_HALF, p.1 - MARKER_HALF, MARKER_SIZE, MARKER_SIZE);
    let n = cs.len();
    let mut i: usize = 0;
    while i < n
        invariant
            all_wf(cs@),
            n == cs@.len(),
            0 <= i <= n,
            marker == contact_marker((p.0 as int, p.1 as int)),
            marker.wf(),
            forall|j: int| 0 <= j < i ==> !(#[trigger] cs@[j]).touches(&marker),
        decreases n - i,
    {
        if cs[i].is_touching(&marker) {
            return true;
        }
        i = i + 1;
    }
    false
}

impl PortalController {
    /// A controller with both portals closed and the wand aimed to the right.
    pub fn new(
        wand_x: i32,
        wand_y: i32,
        surfaces: Vec<RectCollider>,
        inval_surfaces: Vec<RectCollider>,
        now: u64,
    ) -> (r: PortalController)
        ensures
            r.wand_x == wand_x,
            r.wand_y == wand_y,
            r.aim == (Aim { dx: PX, dy: 0 }),
            r.blue == (Portal {
                color_num: 0,
                x: CLOSED_POS,
                y: CLOSED_POS,
                rotation: Orientation::LeftWall,
                collider: closed_collider(),
                last_used: now,
            }),
            r.orange == (Portal { color_num: 1, ..r.blue }),
            r.should_rotate,
            r.last_portal_used == Slot::Blue,
            r.last_portal_time == now,
            r.valid_portal_surfaces == surfaces,
            r.invalid_portal_surfaces == inval_surfaces,
    {
        PortalController {
            wand_x,
            wand_y,
            aim: Aim { dx: PX, dy: 0 },
            blue: Portal::new(0, now),
            orange: Portal::new(1, now),
            should_rotate: true,
            last_portal_used: Slot::Blue,
            last_portal_time: now,
            valid_portal_surfaces: surfaces,
            invalid_portal_surfaces: inval_surfaces,
        }
    }

    pub fn wand_x(&self) -> (r: i32)
        ensures
            r == self.wand_x,
    {
        self.wand_x
    }

    pub fn wand_y(&self) -> (r: i32)
        ensures
            r == self.wand_y,
    {
        self.wand_y
    }

    /// The slot placed most recently.
    pub fn last_portal(&self) -> (r: Slot)
        ensures
            r == self.last_portal_used,
    {
        self.last_portal_used
    }

    /// The portal in `slot`.
    pub fn portal(&self, slot: Slot) -> (r: Portal)
        ensures
            r == self.portal_of(slot),
    {
        match slot {
            Slot::Blue => self.blue,
            Slot::Orange => self.orange,
        }
    }

    pub fn add_valid_surface(&mut self, new_collider: RectCollider)
        ensures
            final(self).valid_portal_surfaces@ == old(self).valid_portal_surfaces@.push(new_collider),
            *final(self) == (PortalController {
                valid_portal_surfaces: final(self).valid_portal_surfaces,
                ..*old(self)
            }),
    {
        self.valid_portal_surfaces.push(new_collider);
    }

    pub fn add_invalid_surface(&mut self, new_collider: RectCollider)
        ensures
            final(self).invalid_portal_surfaces@ == old(self).invalid_portal_surfaces@.push(
                new_collider,
            ),
            *final(self) == (PortalController {
                invalid_portal_surfaces: final(self).invalid_portal_surfaces,
                ..*old(self)
            }),
    {
        self.invalid_portal_surfaces.push(new_collider);
    }

    /// Forgets every surface.
    pub fn reset_surfaces(&mut self)
        ensures
            final(self).valid_portal_surfaces@ == Seq::<RectCollider>::empty(),
            final(self).invalid_portal_surfaces@ == Seq::<RectCollider>::empty(),
            *final(self) == (PortalController {
                valid_portal_surfaces: final(self).valid_portal_surfaces,
                invalid_portal_surfaces: final(self).invalid_portal_surfaces,
                ..*old(self)
            }),
    {
        self.valid_portal_surfaces = Vec::new();
        self.invalid_portal_surfaces = Vec::new();
    }

    /// Every surface, portal-valid ones first.
    pub fn all_colliders(&self) -> (r: Vec<RectCollider>)
        ensures
            r@ == self.surfaces(),
    {
        let mut out = copy_colliders(&self.valid_portal_surfaces);
        let mut rest = copy_colliders(&self.invalid_portal_surfaces);
        out.append(&mut rest);
        out
    }

    /// Stops the wand from turning and from placing portals.
    pub fn freeze(&mut self)
        ensures
            *final(self) == (PortalController { should_rotate: false, ..*old(self) }),
    {
        self.should_rotate = false;
    }

    pub fn unfreeze(&mut self)
        ensures
            *final(self) == (PortalController { should_rotate: true, ..*old(self) }),
    {
        self.should_rotate = true;
    }

    /// Turns the wand to `aim` unless it is frozen, and gives the aim it
    /// holds afterwards.
    pub fn next_rotation(&mut self, aim: Aim) -> (r: Aim)
        ensures
            *final(self) == if old(self).should_rotate {
                PortalController { aim, ..*old(self) }
            } else {
                *old(self)
            },
            r == final(self).aim,
    {
        if self.should_rotate {
            self.aim = aim;
        }
        self.aim
    }

    /// Places the portal in `slot` given contact point `p` and the contact
    /// point `q` a step above it, with `aim` the direction of travel: refused,
    /// with nothing changed, when `p` is too close to the other, open portal
    /// or on a surface that takes no portals; otherwise the portal opens
    /// centred on `p`, on the surface the two points show, and the placement
    /// time is recorded.
    pub fn place_portal(&mut self, slot: Slot, p: (i64, i64), q: (i64, i64), aim: Aim, now: u64) -> (r: Placement)
        requires
            old(self).wf(),
            reachable((p.0 as int, p.1 as int)),
        ensures
            r == old(self).placement_of(slot, (p.0 as int, p.1 as int), (q.0 as int, q.1 as int), aim),
            *final(self) == old(self).placed(
                slot,
                (p.0 as int, p.1 as int),
                (q.0 as int, q.1 as int),
                aim,
                now,
            ),
            final(self).wf(),
            old(self).portal_of(slot.partner()).opened() && near_portal(
                (p.0 as int, p.1 as int),
                old(self).portal_of(slot.partner()).x as int,
                old(self).portal_of(slot.partner()).y as int,
            ) ==> r == Placement::TooClose && *final(self) == *old(self),
    {
        let other = self.portal(slot.other());
        if other.is_open() && is_near_portal(p, &other) {
            return Placement::TooClose;
        }
        if marker_touches_any(&self.invalid_portal_surfaces, p) {
            return Placement::InvalidSurface;
        }
        let rotation = classify_surface(p, q, aim);
        match slot {
            Slot::Blue => self.blue.open(p.0 - 30 * PX, p.1 - 50 * PX, rotation),
            Slot::Orange => self.orange.open(p.0 - 30 * PX, p.1 - 50 * PX, rotation),
        }
        self.last_portal_used = slot;
        self.last_portal_time = now;
        Placement::Placed
    }

    /// Fires the wand for `slot` from the body's wand position: when the
    /// wand is not frozen and `PLACEMENT_COOLDOWN_MS` have passed since the
    /// last placement, one ray is cast along the aim and a second from a
    /// pixel higher, through every surface; if both hit, the contact points
    /// go to `place_portal`, else only the placement time is recorded.
    pub fn open_portal(&mut self, slot: Slot, body: &PhysicsController, now: u64) -> (r: Placement)
        requires
            old(self).wf(),
            body.wf(),
        ensures
            final(self).wf(),
            if !(old(self).should_rotate && elapsed(
                old(self).last_portal_time,
                now,
                PLACEMENT_COOLDOWN_MS,
            )) {
                r == Placement::NotReady && *final(self) == *old(self)
            } else {
                exists|pp: Option<(int, int)>, rp: Option<(int, int)>|
                    #[trigger] ray_gives(
                        body.x + old(self).wand_x,
                        body.y + old(self).wand_y,
                        old(self).aim,
                        old(self).surfaces(),
                        pp,
                    ) && #[trigger] ray_gives(
                        body.x + old(self).wand_x,
                        body.y + old(self).wand_y - PX,
                        old(self).aim,
                        old(self).surfaces(),
                        rp,
                    ) && match (pp, rp) {
                        (Some(p), Some(q)) => r == old(self).placement_of(slot, p, q, old(self).aim)
                            && *final(self) == old(self).placed(slot, p, q, old(self).aim, now),
                        _ => r == Placement::NoSurface && *final(self) == old(self).stamped(
                            slot,
                            now,
                        ),
                    }
            },
    {
        if !(self.should_rotate && cooldown_over(
            self.last_portal_time,
            now,
            PLACEMENT_COOLDOWN_MS,
        )) {
            return Placement::NotReady;
        }
        let ox = body.x + self.wand_x as i64;
        let oy = body.y + self.wand_y as i64;
        let surfaces = self.all_colliders();
        proof {
            lemma_surfaces_wf(*self);
        }
        let aim = self.aim;
        let main_ray = Raycast::new(ox, oy, aim, copy_colliders(&surfaces));
        let pp = main_ray.cast();
        let trace_ray = Raycast::new(ox, oy - PX, aim, surfaces);
        let rp = trace_ray.cast();
        let ghost wp = widen(pp);
        let ghost wr = widen(rp);
        proof {
            assert(main_ray.colliders@ == self.surfaces());
            assert(trace_ray.colliders@ == self.surfaces());
            lemma_cast_gives(main_ray, pp);
            lemma_cast_gives(trace_ray, rp);
        }
        match (pp, rp) {
            (Some(p), Some(q)) => self.place_portal(slot, p, q, aim, now),
            _ => {
                self.last_portal_used = slot;
                self.last_portal_time = now;
                Placement::NoSurface
            },
        }
    }

    /// Moves a body that touches an open portal whose cooldown has run out
    /// to the other portal, blue taken before orange when both qualify: the
    /// body is put at the exit point, its velocity remapped by the turn
    /// between the two portals, and it leaves the ground; the exit portal's
    /// cooldown starts over, so the body does not bounce straight back. Gives
    /// whether the body was moved; both portals must be open.
    pub fn teleport(&mut self, body: &mut PhysicsController, now: u64) -> (r: bool)
        requires
            old(self).wf(),
            old(body).wf(),
        ensures
            match old(self).entry_for(body_rect(*old(body)), now) {
                Some(s) => r && *final(self) == old(self).after_transit(s, now) && *final(body)
                    == old(self).carried(s, *old(body)),
                None => !r && *final(self) == *old(self) && *final(body) == *old(body),
            },
            final(self).wf(),
            final(body).wf(),
    {
        if !(self.blue.is_open() && self.orange.is_open()) {
            return false;
        }
        let rect = body_collider(body);
        let slot = if cooldown_over(self.blue.last_used, now, TELEPORT_COOLDOWN_MS)
            && rect.is_touching(&self.blue.collider) {
            Slot::Blue
        } else if cooldown_over(self.orange.last_used, now, TELEPORT_COOLDOWN_MS)
            && rect.is_touching(&self.orange.collider) {
            Slot::Orange
        } else {
            return false;
        };
        let entry = self.portal(slot);
        let exit = self.portal(slot.other());
        let at = exit_position(&exit);
        let v = remap_velocity(entry.rotation, exit.rotation, body.speed, body.fall_speed);
        body.x = at.0;
        body.y = at.1;
        body.speed = v.0;
        body.fall_speed = v.1;
        body.is_grounded = false;
        match slot {
            Slot::Blue => self.orange.last_used = now,
            Slot::Orange => self.blue.last_used = now,
        }
        true
    }

    /// Closes both portals.
    pub fn close_all(&mut self)
        ensures
            *final(self) == (PortalController {
                blue: old(self).blue.parked(),
                orange: old(self).orange.parked(),
                ..*old(self)
            }),
            old(self).wf() ==> final(self).wf(),
    {
        self.blue.close();
        self.orange.close();
    }
}

/// Right after a body has gone through one portal, and until
/// `TELEPORT_COOLDOWN_MS` have passed, it cannot go in through the portal it
/// came out of, whether or not it still touches that portal.
pub proof fn lemma_no_immediate_return(pc: PortalController, body: PhysicsController, now: u64, later: u64)
    requires
        pc.entry_for(body_rect(body), now) is Some,
        later < now + TELEPORT_COOLDOWN_MS,
    ensures
        ({
            let s = pc.entry_for(body_rect(body), now)->0;
            let pc2 = pc.after_transit(s, now);
            let b2 = pc.carried(s, body);
            &&& !pc2.enters(s.partner(), body_rect(b2), later)
            &&& pc2.entry_for(body_rect(b2), later) != Some(s.partner())
        }),
{
}

/// A placement at a point within `MIN_SEPARATION` of the other portal, while
/// that portal is open, is refused and leaves the controller as it was.
pub proof fn lemma_too_close_is_refused(
    pc: PortalController,
    slot: Slot,
    p: (int, int),
    q: (int, int),
    aim: Aim,
    now: u64,
)
    requires
        pc.portal_of(slot.partner()).opened(),
        near_portal(p, pc.portal_of(slot.partner()).x as int, pc.portal_of(slot.partner()).y as int),
    ensures
        pc.placement_of(slot, p, q, aim) == Placement::TooClose,
        pc.placed(slot, p, q, aim, now) == pc,
{
}

/// Every surface of a well-formed controller is well formed.
pub proof fn lemma_surfaces_wf(pc: PortalController)
    requires
        pc.wf(),
    ensures
        all_wf(pc.surfaces()),
{
    let a = pc.valid_portal_surfaces@;
    let b = pc.invalid_portal_surfaces@;
    assert forall|i: int| 0 <= i < pc.surfaces().len() implies (#[trigger] pc.surfaces()[i]).wf() by {
        if i < a.len() {
            assert(pc.surfaces()[i] == a[i]);
        } else {
            assert(pc.surfaces()[i] == b[i - a.len()]);
        }
    }
}

} // verus!
