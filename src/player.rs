//! A player: a body, the collider that follows it, and its portal wand.
use vstd::prelude::*;
use crate::physics_controller::{body_pos_ok, PhysicsController};
use crate::plate_controller::PlateController;
use crate::portal_controller::PortalController;
use crate::rect_collider::RectCollider;
use crate::units::PX;

verus! {

/// Where a dead player is parked, off the playfield.
pub const DEAD_POS: i64 = -300 * PX;

/// The kinds of level block a player collides with.
#[derive(Clone, Copy, Debug, PartialEq, Eq, Structural)]
pub enum BlockKind {
    /// Solid, and takes portals.
    PortalBlock,
    /// Solid, and takes no portals.
    NonPortalBlock,
    /// Solid, and invisible to the wand.
    PortalGlass,
}

pub struct Player {
    pub physics: PhysicsController,
    pub collider: RectCollider,
    pub portal: PortalController,
    pub start_x: i64,
    pub start_y: i64,
    pub dead: bool,
}

impl Player {
    pub open spec fn wf(&self) -> bool {
        &&& self.physics.wf()
        &&& self.collider.wf()
        &&& self.portal.wf()
        &&& body_pos_ok(self.start_x as int)
        &&& body_pos_ok(self.start_y as int)
    }

    /// A living player that respawns where its body starts.
    pub fn new(physics: PhysicsController, collider: RectCollider, portal: PortalController) -> (r: Player)
        ensures
            r.physics == physics,
            r.collider == collider,
            r.portal == portal,
            r.start_x == physics.x,
            r.start_y == physics.y,
            !r.dead,
    {
        let start_x = physics.x;
        let start_y = physics.y;
        Player { physics, collider, portal, start_x, start_y, dead: false }
    }

    pub fn is_dead(&self) -> (r: bool)
        ensures
            r == self.dead,
    {
        self.dead
    }

    /// Sets where the player respawns.
    pub fn set_start(&mut self, x: i64, y: i64)
        ensures
            final(self).start_x == x,
            final(self).start_y == y,
            final(self).physics == old(self).physics,
            final(self).collider == old(self).collider,
            final(self).portal == old(self).portal,
            final(self).dead == old(self).dead,
    {
        self.start_x = x;
        self.start_y = y;
    }

    /// One tick: the body moves with the plate's barrier as one more solid,
    /// and the collider follows it.
    pub fn update(&mut self, platecon: &PlateController)
        requires
            old(self).wf(),
            platecon.wf(),
        ensures
            final(self).physics.colliders@ == old(self).physics.colliders@,
            final(self).physics == (PhysicsController {
                colliders: final(self).physics.colliders,
                ..old(self).physics.ticked_among(
                    old(self).physics.colliders@.push(platecon.blocking_collider()),
                )
            }),
            final(self).collider == (RectCollider {
                x: final(self).physics.x,
                y: final(self).physics.y,
                ..old(self).collider
            }),
            final(self).portal == old(self).portal,
            final(self).start_x == old(self).start_x,
            final(self).start_y == old(self).start_y,
            final(self).dead == old(self).dead,
            final(self).wf(),
    {
        let gate = platecon.active_gate_collider();
        self.physics.update_with(gate);
        self.collider.update(&self.physics);
    }

    /// Freezes the player in place: no movement, no wand.
    pub fn stop(&mut self)
        ensures
            final(self).physics == (PhysicsController { can_move: false, ..old(self).physics }),
            final(self).portal == (PortalController { should_rotate: false, ..old(self).portal }),
            final(self).collider == old(self).collider,
            final(self).start_x == old(self).start_x,
            final(self).start_y == old(self).start_y,
            final(self).dead == old(self).dead,
    {
        self.physics.immobilize();
        self.portal.freeze();
    }

    pub fn unstop(&mut self)
        ensures
            final(self).physics == (PhysicsController { can_move: true, ..old(self).physics }),
            final(self).portal == (PortalController { should_rotate: true, ..old(self).portal }),
            final(self).collider == old(self).collider,
            final(self).start_x == old(self).start_x,
            final(self).start_y == old(self).start_y,
            final(self).dead == old(self).dead,
    {
        self.physics.mobilize();
        self.portal.unfreeze();
    }

    /// Adds a level block: every block is solid to the body; portal blocks
    /// and non-portal blocks are also surfaces for the wand.
    pub fn add_collider(&mut self, collider: RectCollider, kind: BlockKind)
        ensures
            final(self).physics.colliders@ == old(self).physics.colliders@.push(collider),
            final(self).physics == (PhysicsController {
                colliders: final(self).physics.colliders,
                ..old(self).physics
            }),
            final(self).portal.valid_portal_surfaces@ == if kind == BlockKind::PortalBlock {
                old(self).portal.valid_portal_surfaces@.push(collider)
            } else {
                old(self).portal.valid_portal_surfaces@
            },
            final(self).portal.invalid_portal_surfaces@ == if kind == BlockKind::NonPortalBlock {
                old(self).portal.invalid_portal_surfaces@.push(collider)
            } else {
                old(self).portal.invalid_portal_surfaces@
            },
            final(self).portal == (PortalController {
                valid_portal_surfaces: final(self).portal.valid_portal_surfaces,
                invalid_portal_surfaces: final(self).portal.invalid_portal_surfaces,
                ..old(self).portal
            }),
            final(self).collider == old(self).collider,
            final(self).start_x == old(self).start_x,
            final(self).start_y == old(self).start_y,
            final(self).dead == old(self).dead,
    {
        self.physics.add_collider(collider);
        match kind {
            BlockKind::PortalBlock => self.portal.add_valid_surface(collider),
            BlockKind::NonPortalBlock => self.portal.add_invalid_surface(collider),
            BlockKind::PortalGlass => {},
        }
    }

    /// Forgets every block and closes both portals, for a new level.
    pub fn reset_colliders(&mut self)
        ensures
            final(self).physics.colliders@ == Seq::<RectCollider>::empty(),
            final(self).physics == (PhysicsController {
                colliders: final(self).physics.colliders,
                ..old(self).physics
            }),
            final(self).portal.valid_portal_surfaces@ == Seq::<RectCollider>::empty(),
            final(self).portal.invalid_portal_surfaces@ == Seq::<RectCollider>::empty(),
            final(self).portal == (PortalController {
                valid_portal_surfaces: final(self).portal.valid_portal_surfaces,
                invalid_portal_surfaces: final(self).portal.invalid_portal_surfaces,
                blue: old(self).portal.blue.parked(),
                orange: old(self).portal.orange.parked(),
                ..old(self).portal
            }),
            final(self).collider == old(self).collider,
            final(self).start_x == old(self).start_x,
            final(self).start_y == old(self).start_y,
            final(self).dead == old(self).dead,
    {
        self.physics.reset_colliders();
        self.portal.reset_surfaces();
        self.portal.close_all();
    }

    /// Kills the player: both portals close and the body is parked off the
    /// playfield.
    pub fn kill(&mut self)
        ensures
            final(self).dead,
            final(self).physics == (PhysicsController { x: DEAD_POS, y: DEAD_POS, ..old(self).physics }),
            final(self).portal == (PortalController {
                blue: old(self).portal.blue.parked(),
                orange: old(self).portal.orange.parked(),
                ..old(self).portal
            }),
            final(self).collider == old(self).collider,
            final(self).start_x == old(self).start_x,
            final(self).start_y == old(self).start_y,
    {
        self.portal.close_all();
        self.dead = true;
        self.physics.set_x(DEAD_POS);
        self.physics.set_y(DEAD_POS);
    }

    /// Brings the player back at rest at its start position.
    pub fn respawn(&mut self)
        ensures
            !final(self).dead,
            final(self).physics == (PhysicsController {
                x: old(self).start_x,
                y: old(self).start_y,
                speed: 0,
                fall_speed: 0,
                ..old(self).physics
            }),
            final(self).portal == old(self).portal,
            final(self).collider == old(self).collider,
            final(self).start_x == old(self).start_x,
            final(self).start_y == old(self).start_y,
    {
        self.dead = false;
        self.physics.set_x(self.start_x);
        self.physics.set_y(self.start_y);
        self.physics.set_speed(0);
        self.physics.set_fall_speed(0);
    }
}

} // verus!
