use portal_engine::physics_controller::PhysicsController;
use portal_engine::portal_controller::{Orientation, Placement, PortalController, Slot};
use portal_engine::potion::{isqrt, Flight, Potion, MAX_LAUNCH_SPEED, POTION_GRAVITY};
use portal_engine::rect_collider::RectCollider;
use portal_engine::units::PX;

#[test]
fn isqrt_gives_the_floor_of_the_root() {
    assert_eq!(isqrt(0), 0);
    assert_eq!(isqrt(1), 1);
    assert_eq!(isqrt(15), 3);
    assert_eq!(isqrt(16), 4);
    assert_eq!(isqrt(17), 4);
    assert_eq!(isqrt(4_000_000_000_000), 2_000_000);
}

#[test]
fn throw_speed_follows_the_clamped_distance() {
    // 100px to the right: speed 100px / 20 = 5px per tick
    let p = Potion::throw(Slot::Blue, 100 * PX, 300 * PX, 100 * PX, 0);
    assert_eq!((p.vx, p.vy), (5 * PX, 0));
    assert_eq!((p.trace_x, p.trace_y), (100 * PX, 299 * PX));
    // a 3-4-5 offset of 500px is clamped to 400px: speed 20px split 3:4
    let p = Potion::throw(Slot::Blue, 100 * PX, 300 * PX, 300 * PX, -400 * PX);
    assert_eq!((p.vx, p.vy), (12 * PX, -16 * PX));
    // far beyond the clamp the speed stays at the maximum
    let p = Potion::throw(Slot::Orange, 100 * PX, 300 * PX, -5000 * PX, 0);
    assert_eq!((p.vx, p.vy), (-MAX_LAUNCH_SPEED, 0));
    let p = Potion::throw(Slot::Orange, 100 * PX, 300 * PX, 0, 0);
    assert_eq!((p.vx, p.vy), (0, 0));
}

#[test]
fn potion_falls_under_gravity() {
    let mut p = Potion::throw(Slot::Blue, 100 * PX, 300 * PX, 100 * PX, 0);
    assert_eq!(p.step(&vec![]), Flight::Flying);
    assert_eq!((p.x, p.y), (105 * PX, 300 * PX + POTION_GRAVITY));
    assert_eq!(p.step(&vec![]), Flight::Flying);
    assert_eq!((p.x, p.y), (110 * PX, 300 * PX + 3 * POTION_GRAVITY));
    assert_eq!(p.rotation, 30);
}

#[test]
fn potion_leaving_the_playfield_is_lost() {
    let mut p = Potion::throw(Slot::Blue, 1210 * PX, 300 * PX, 400 * PX, 0);
    let mut flight = Flight::Flying;
    for _ in 0..10 {
        flight = p.step(&vec![]);
        if flight != Flight::Flying {
            break;
        }
    }
    assert_eq!(flight, Flight::Lost);
}

#[test]
fn potion_thrown_at_a_wall_opens_a_wall_portal() {
    let wall = RectCollider::new(800 * PX, 0, 64 * PX, 640 * PX);
    let mut pc = PortalController::new(0, 0, vec![wall], vec![], 0);
    let body = PhysicsController::new(500 * PX, 300 * PX, 8 * PX, 70, 20 * PX, 1, 20, PX, 70 * PX, vec![], 69 * PX, 98 * PX, 0);
    let mut p = pc.throw_potion(Slot::Orange, &body, 900 * PX, 300 * PX).unwrap();
    let mut placed = None;
    for _ in 0..100 {
        let (flight, placement) = pc.fly_potion(&mut p, 1_000);
        assert_ne!(flight, Flight::Lost);
        if flight == Flight::Landed {
            placed = placement;
            break;
        }
    }
    assert_eq!(placed, Some(Placement::Placed));
    assert!(pc.orange.is_open());
    assert_eq!(pc.orange.rotation(), Orientation::RightWall);
    // steps of 20px carry the potion 20px into the wall, beyond the snap tolerance
    assert_eq!(pc.orange.x(), 790 * PX);
}

#[test]
fn throw_from_outside_the_playfield_gives_nothing() {
    let pc = PortalController::new(0, 0, vec![], vec![], 0);
    let body = PhysicsController::new(-50 * PX, 300 * PX, 8 * PX, 70, 20 * PX, 1, 20, PX, 70 * PX, vec![], 69 * PX, 98 * PX, 0);
    assert!(pc.throw_potion(Slot::Blue, &body, 0, 0).is_none());
}
