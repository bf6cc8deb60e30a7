use portal_engine::object_controller::{get_offset, ground_collision, ObjectController};
use portal_engine::physics_controller::PhysicsController;
use portal_engine::plate_controller::PlateController;
use portal_engine::player::{BlockKind, Player, DEAD_POS};
use portal_engine::portal_controller::{Orientation, PortalController};
use portal_engine::rect_collider::RectCollider;
use portal_engine::units::PX;

fn player_at(x: i64, y: i64) -> Player {
    let physics = PhysicsController::new(x, y, 8 * PX, 70, 20 * PX, 1, 20, PX, 70 * PX, vec![], 69 * PX, 98 * PX, 0);
    let collider = RectCollider::new(x, y, 69 * PX, 98 * PX);
    let portal = PortalController::new(0, 0, vec![], vec![], 0);
    Player::new(physics, collider, portal)
}

#[test]
fn plate_is_pressed_while_the_box_rests_on_it() {
    let mut plate = PlateController::new(100 * PX, 500 * PX, 300 * PX, 400 * PX, 128 * PX, true);
    assert_eq!(plate.plate_collider(), RectCollider::new(100 * PX, 532 * PX, 64 * PX, 32 * PX));
    assert!(!plate.plate_pressed());
    assert_eq!(plate.active_gate_collider(), RectCollider::new(306 * PX, 400 * PX, 44 * PX, 128 * PX));
    plate.update_plate(RectCollider::new(110 * PX, 520 * PX, 32 * PX, 32 * PX));
    assert!(plate.plate_pressed());
    assert_eq!(plate.active_gate_collider(), RectCollider::new(0, 0, 0, 0));
    plate.update_plate(RectCollider::new(300 * PX, 520 * PX, 32 * PX, 32 * PX));
    assert!(!plate.plate_pressed());
    let flat = PlateController::new(0, 0, 300 * PX, 400 * PX, 128 * PX, false);
    assert_eq!(flat.active_gate_collider(), RectCollider::new(300 * PX, 406 * PX, 128 * PX, 44 * PX));
    assert_eq!((flat.gate_x(), flat.gate_y(), flat.gate_length(), flat.gate_vertical()), (300 * PX, 400 * PX, 128 * PX, false));
}

#[test]
fn closed_barrier_blocks_the_player() {
    let plate = PlateController::new(0, 0, 200 * PX, 0, 600 * PX, true);
    let mut p = player_at(135 * PX, 100 * PX);
    p.physics.set_speed(5 * PX);
    p.update(&plate);
    assert_eq!(p.physics.x(), 135 * PX);
    assert_eq!(p.collider.x(), 135 * PX);
    assert!(p.physics.colliders().is_empty());
}

#[test]
fn block_falls_and_lands_on_an_obstacle() {
    let floor = RectCollider::new(0, 600 * PX, 1280 * PX, 64 * PX);
    let mut block = ObjectController::new(RectCollider::new(200 * PX, 560 * PX, 32 * PX, 32 * PX));
    block.add_collider(floor);
    let p = player_at(500 * PX, 100 * PX);
    block.set_start_pos(200 * PX, 560 * PX);
    block.respawn();
    block.update(&p);
    assert!(block.in_air());
    assert_eq!(block.y(), 561 * PX);
    for _ in 0..10 {
        block.update(&p);
    }
    assert!(!block.in_air());
    assert_eq!(block.y(), 568 * PX);
    assert_eq!(block.fall_speed(), 0);
}

#[test]
fn block_ignores_obstacles_below_the_screen() {
    let deep = RectCollider::new(0, 730 * PX, 1280 * PX, 64 * PX);
    let mut block = ObjectController::new(RectCollider::new(200 * PX, 690 * PX, 32 * PX, 32 * PX));
    block.add_collider(deep);
    block.respawn();
    block.set_start_pos(200 * PX, 690 * PX);
    let p = player_at(500 * PX, 100 * PX);
    for _ in 0..20 {
        block.update(&p);
    }
    assert!(block.in_air());
    assert!(block.y() > 730 * PX);
}

#[test]
fn carried_block_follows_the_player() {
    let mut block = ObjectController::new(RectCollider::new(120 * PX, 200 * PX, 32 * PX, 32 * PX));
    let mut p = player_at(100 * PX, 150 * PX);
    block.picked_up(&p);
    assert!(block.carried());
    assert_eq!(block.y(), 180 * PX);
    assert_eq!(block.offset, (-20 * PX, -30 * PX));
    p.collider.set_x(300 * PX);
    p.collider.set_y(160 * PX);
    block.update(&p);
    assert_eq!((block.x(), block.y()), (320 * PX, 190 * PX));
    block.put_down();
    assert!(!block.carried());
}

#[test]
fn offset_and_ground_strip() {
    let a = RectCollider::new(10, 20, 5, 5);
    let b = RectCollider::new(40, 70, 5, 5);
    assert_eq!(get_offset(a, b), (30, 50));
    assert!(ground_collision(RectCollider::new(100 * PX, 640 * PX, 32 * PX, 32 * PX)));
    assert!(!ground_collision(RectCollider::new(100 * PX, 600 * PX, 32 * PX, 32 * PX)));
}

#[test]
fn player_blocks_kill_and_respawn() {
    let mut p = player_at(100 * PX, 100 * PX);
    let a = RectCollider::new(0, 600 * PX, 640 * PX, 64 * PX);
    let b = RectCollider::new(640 * PX, 600 * PX, 640 * PX, 64 * PX);
    let c = RectCollider::new(0, 0, 64 * PX, 600 * PX);
    p.add_collider(a, BlockKind::PortalBlock);
    p.add_collider(b, BlockKind::NonPortalBlock);
    p.add_collider(c, BlockKind::PortalGlass);
    assert_eq!(p.physics.colliders(), vec![a, b, c]);
    assert_eq!(p.portal.all_colliders(), vec![a, b]);
    p.portal.blue.open(300 * PX, 300 * PX, Orientation::LeftWall);
    p.kill();
    assert!(p.is_dead());
    assert!(!p.portal.blue.is_open());
    assert_eq!((p.physics.x(), p.physics.y()), (DEAD_POS, DEAD_POS));
    p.physics.set_speed(3 * PX);
    p.respawn();
    assert!(!p.is_dead());
    assert_eq!((p.physics.x(), p.physics.y(), p.physics.speed()), (100 * PX, 100 * PX, 0));
    p.stop();
    assert!(!p.portal.should_rotate);
    p.unstop();
    assert!(p.portal.should_rotate);
    p.reset_colliders();
    assert!(p.physics.colliders().is_empty());
    assert!(p.portal.all_colliders().is_empty());
}
