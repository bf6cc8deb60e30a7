use portal_engine::physics_controller::PhysicsController;
use portal_engine::portal_controller::{
    remap_velocity, Orientation, Placement, Portal, PortalController, Slot, CLOSED_POS,
};
use portal_engine::raycast::Aim;
use portal_engine::rect_collider::RectCollider;
use portal_engine::units::PX;

fn body_at(x: i64, y: i64) -> PhysicsController {
    PhysicsController::new(x, y, 8 * PX, 70, 20 * PX, 1, 20, PX, 70 * PX, vec![], 69 * PX, 98 * PX, 0)
}

fn pair() -> PortalController {
    PortalController::new(-10 * PX as i32, 60 * PX as i32, vec![], vec![], 0)
}

#[test]
fn new_portal_is_closed_off_the_playfield() {
    let p = Portal::new(1, 0);
    assert!(!p.is_open());
    assert_eq!((p.x(), p.y()), (CLOSED_POS, CLOSED_POS));
    assert_eq!(p.color(), 1);
    assert_eq!(p.rotation(), Orientation::LeftWall);
}

#[test]
fn wall_portal_collider_is_tall_and_floor_portal_collider_is_wide() {
    let mut p = Portal::new(0, 0);
    p.open(100 * PX, 200 * PX, Orientation::LeftWall);
    assert!(p.is_open());
    assert_eq!(p.collider(), RectCollider::new(110 * PX, 215 * PX, 40 * PX, 70 * PX));
    p.open(100 * PX, 200 * PX, Orientation::Floor);
    assert_eq!(p.collider(), RectCollider::new(95 * PX, 245 * PX, 70 * PX, 40 * PX));
    p.close();
    assert!(!p.is_open());
}

#[test]
fn left_wall_to_ceiling_turns_horizontal_speed_into_fall_speed() {
    let mut pc = pair();
    pc.blue.open(100 * PX, 300 * PX, Orientation::LeftWall);
    pc.orange.open(600 * PX, 100 * PX, Orientation::Ceiling);
    let mut b = body_at(100 * PX, 300 * PX);
    b.set_speed(5);
    b.set_fall_speed(0);
    assert!(pc.teleport(&mut b, 1_000));
    assert_eq!(b.fall_speed(), 5);
    assert_eq!(b.speed(), 0);
    assert_eq!((b.x(), b.y()), (605 * PX, 160 * PX));
}

#[test]
fn floor_to_ceiling_keeps_the_fall_and_leaves_the_ground() {
    let mut pc = pair();
    pc.blue.open(300 * PX, 560 * PX, Orientation::Floor);
    pc.orange.open(300 * PX, 100 * PX, Orientation::Ceiling);
    // blue's collider spans x 295..365px, y 605..645px
    let mut b = body_at(290 * PX, 520 * PX);
    b.set_fall_speed(7 * PX);
    b.set_speed(3);
    assert!(pc.teleport(&mut b, 1_000));
    assert_eq!((b.x(), b.y()), (305 * PX, 160 * PX));
    assert_eq!(b.fall_speed(), 7 * PX);
    assert_eq!(b.speed(), 3);
    assert!(!b.is_grounded());
}

#[test]
fn immediate_recheck_at_the_exit_does_not_teleport_back() {
    let mut pc = pair();
    pc.blue.open(100 * PX, 300 * PX, Orientation::RightWall);
    pc.orange.open(600 * PX, 300 * PX, Orientation::LeftWall);
    let mut b = body_at(100 * PX, 300 * PX);
    assert!(pc.teleport(&mut b, 1_000));
    // the body now stands at orange's exit point, still touching orange
    assert_eq!((b.x(), b.y()), (630 * PX, 305 * PX));
    let o = pc.orange.collider();
    assert!(RectCollider::new(b.x(), b.y(), 69 * PX, 98 * PX).is_touching(&o));
    assert_eq!(pc.orange.last_used(), 1_000);
    assert!(!pc.teleport(&mut b, 1_001));
    assert!(!pc.teleport(&mut b, 1_499));
    assert_eq!((b.x(), b.y()), (630 * PX, 305 * PX));
    assert!(pc.teleport(&mut b, 1_500));
}

#[test]
fn teleport_needs_both_portals_open() {
    let mut pc = pair();
    pc.blue.open(100 * PX, 300 * PX, Orientation::LeftWall);
    let mut b = body_at(100 * PX, 300 * PX);
    assert!(!pc.teleport(&mut b, 1_000));
    assert_eq!((b.x(), b.y()), (100 * PX, 300 * PX));
}

#[test]
fn teleport_waits_for_the_entry_cooldown() {
    let mut pc = pair();
    pc.blue.open(100 * PX, 300 * PX, Orientation::LeftWall);
    pc.orange.open(600 * PX, 300 * PX, Orientation::RightWall);
    let mut b = body_at(100 * PX, 300 * PX);
    assert!(!pc.teleport(&mut b, 499));
    assert!(pc.teleport(&mut b, 500));
}

#[test]
fn velocity_remap_table() {
    // no turn: wall to facing wall
    assert_eq!(remap_velocity(Orientation::LeftWall, Orientation::RightWall, 3, 4), (3, 4));
    // half turn across walls reverses the horizontal speed
    assert_eq!(remap_velocity(Orientation::LeftWall, Orientation::LeftWall, 3, 4), (-3, 4));
    // half turn across floor/ceiling reverses the fall speed
    assert_eq!(remap_velocity(Orientation::Floor, Orientation::Floor, 3, 4), (3, -4));
    // quarter turns
    assert_eq!(remap_velocity(Orientation::Floor, Orientation::LeftWall, 3, 4), (4, -3));
    assert_eq!(remap_velocity(Orientation::LeftWall, Orientation::Ceiling, 3, 4), (-4, 3));
    assert_eq!(remap_velocity(Orientation::Floor, Orientation::RightWall, 3, 4), (-4, -3));
    assert_eq!(remap_velocity(Orientation::RightWall, Orientation::Floor, 3, 4), (4, 3));
    // slopes pass velocity through
    assert_eq!(remap_velocity(Orientation::Sloped, Orientation::Floor, 3, 4), (3, 4));
}

#[test]
fn slot_other_is_the_partner() {
    assert_eq!(Slot::Blue.other(), Slot::Orange);
    assert_eq!(Slot::Orange.other(), Slot::Blue);
}

fn level() -> PortalController {
    let floor = RectCollider::new(0, 600 * PX, 1220 * PX, 64 * PX);
    let right_wall = RectCollider::new(1000 * PX, 0, 64 * PX, 600 * PX);
    let left_wall = RectCollider::new(0, 0, 64 * PX, 600 * PX);
    let ceiling = RectCollider::new(0, 0, 1220 * PX, 32 * PX);
    PortalController::new(0, 0, vec![floor, right_wall, left_wall, ceiling], vec![], 0)
}

#[test]
fn wand_shot_at_right_wall_opens_a_right_wall_portal() {
    let mut pc = level();
    let b = body_at(500 * PX, 300 * PX);
    pc.next_rotation(Aim { dx: PX, dy: 0 });
    assert_eq!(pc.open_portal(Slot::Blue, &b, 1_000), Placement::Placed);
    assert!(pc.blue.is_open());
    assert_eq!(pc.blue.rotation(), Orientation::RightWall);
    assert_eq!((pc.blue.x(), pc.blue.y()), (970 * PX, 250 * PX));
    assert_eq!(pc.last_portal(), Slot::Blue);
}

#[test]
fn wand_shot_at_floor_and_ceiling() {
    let mut pc = level();
    let b = body_at(500 * PX, 300 * PX);
    pc.next_rotation(Aim { dx: 0, dy: PX });
    assert_eq!(pc.open_portal(Slot::Blue, &b, 1_000), Placement::Placed);
    assert_eq!(pc.blue.rotation(), Orientation::Floor);
    pc.next_rotation(Aim { dx: 0, dy: -PX });
    assert_eq!(pc.open_portal(Slot::Orange, &b, 2_000), Placement::Placed);
    assert_eq!(pc.orange.rotation(), Orientation::Ceiling);
    pc.next_rotation(Aim { dx: -PX, dy: 0 });
    assert_eq!(pc.open_portal(Slot::Orange, &b, 3_000), Placement::Placed);
    assert_eq!(pc.orange.rotation(), Orientation::LeftWall);
}

#[test]
fn placement_too_close_to_the_other_portal_is_refused() {
    let mut pc = level();
    let b = body_at(500 * PX, 300 * PX);
    pc.next_rotation(Aim { dx: PX, dy: 0 });
    assert_eq!(pc.open_portal(Slot::Blue, &b, 1_000), Placement::Placed);
    let blue = pc.blue;
    let orange = pc.orange;
    // the same shot for orange lands on blue's spot
    assert_eq!(pc.open_portal(Slot::Orange, &b, 2_000), Placement::TooClose);
    assert_eq!(pc.last_portal_time, 1_000);
    assert_eq!(pc.last_portal(), Slot::Blue);
    assert_eq!(pc.blue, blue);
    assert_eq!(pc.orange, orange);
    assert!(!pc.orange.is_open());
    // through the entry point, with a point 100px away
    assert_eq!(pc.place_portal(Slot::Orange, (1000 * PX, 400 * PX), (1000 * PX, 399 * PX), Aim { dx: PX, dy: 0 }, 3_000), Placement::TooClose);
    assert_eq!(pc.orange, orange);
    // 200px away is far enough
    assert_eq!(pc.place_portal(Slot::Orange, (1000 * PX, 500 * PX), (1000 * PX, 499 * PX), Aim { dx: PX, dy: 0 }, 4_000), Placement::Placed);
}

#[test]
fn placement_on_an_invalid_surface_is_refused() {
    let glass = RectCollider::new(1000 * PX, 0, 64 * PX, 600 * PX);
    let mut pc = PortalController::new(0, 0, vec![], vec![glass], 0);
    let b = body_at(500 * PX, 300 * PX);
    pc.next_rotation(Aim { dx: PX, dy: 0 });
    assert_eq!(pc.open_portal(Slot::Blue, &b, 1_000), Placement::InvalidSurface);
    assert!(!pc.blue.is_open());
    assert_eq!(pc.last_portal_time, 0);
}

#[test]
fn shot_into_empty_space_and_cooldowns() {
    let mut pc = pair();
    let b = body_at(500 * PX, 300 * PX);
    assert_eq!(pc.open_portal(Slot::Blue, &b, 1_000), Placement::NoSurface);
    assert_eq!(pc.last_portal_time, 1_000);
    assert_eq!(pc.open_portal(Slot::Blue, &b, 1_099), Placement::NotReady);
    assert_eq!(pc.open_portal(Slot::Blue, &b, 1_100), Placement::NoSurface);
    pc.freeze();
    assert_eq!(pc.open_portal(Slot::Blue, &b, 5_000), Placement::NotReady);
    assert_eq!(pc.next_rotation(Aim { dx: 0, dy: PX }), Aim { dx: PX, dy: 0 });
    pc.unfreeze();
    assert_eq!(pc.next_rotation(Aim { dx: 0, dy: PX }), Aim { dx: 0, dy: PX });
}

#[test]
fn close_all_closes_both() {
    let mut pc = pair();
    pc.blue.open(100 * PX, 300 * PX, Orientation::LeftWall);
    pc.orange.open(600 * PX, 100 * PX, Orientation::Ceiling);
    pc.close_all();
    assert!(!pc.blue.is_open());
    assert!(!pc.orange.is_open());
}

#[test]
fn surfaces_list_valid_then_invalid() {
    let mut pc = pair();
    let a = RectCollider::new(1, 1, 1, 1);
    let b = RectCollider::new(2, 2, 2, 2);
    pc.add_invalid_surface(b);
    pc.add_valid_surface(a);
    assert_eq!(pc.all_colliders(), vec![a, b]);
    pc.reset_surfaces();
    assert!(pc.all_colliders().is_empty());
}
