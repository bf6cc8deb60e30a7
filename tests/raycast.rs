use portal_engine::raycast::{Aim, Raycast, SNAP_TOLERANCE};
use portal_engine::rect_collider::RectCollider;
use portal_engine::units::PX;

fn boxed_field() -> Vec<RectCollider> {
    vec![
        RectCollider::new(-10 * PX, -40 * PX, 20 * PX, 710 * PX),
        RectCollider::new(1210 * PX, -40 * PX, 20 * PX, 710 * PX),
        RectCollider::new(-10 * PX, -40 * PX, 1240 * PX, 20 * PX),
        RectCollider::new(-10 * PX, 640 * PX, 1240 * PX, 30 * PX),
    ]
}

#[test]
fn ray_to_the_right_snaps_onto_wall_face() {
    let wall = RectCollider::new(500 * PX, 0, 64 * PX, 640 * PX);
    let ray = Raycast::new(100 * PX, 300 * PX, Aim { dx: PX, dy: 0 }, vec![wall]);
    assert_eq!(ray.cast(), Some((500 * PX, 300 * PX)));
}

#[test]
fn ray_to_the_left_snaps_onto_right_face() {
    let wall = RectCollider::new(0, 0, 64 * PX, 640 * PX);
    let ray = Raycast::new(300 * PX, 300 * PX, Aim { dx: -PX, dy: 0 }, vec![wall]);
    assert_eq!(ray.cast(), Some((64 * PX, 300 * PX)));
}

#[test]
fn ray_down_snaps_onto_floor_top() {
    let floor = RectCollider::new(0, 600 * PX, 1200 * PX, 64 * PX);
    let ray = Raycast::new(333 * PX, 100 * PX, Aim { dx: 0, dy: 3 * PX }, vec![floor]);
    assert_eq!(ray.cast(), Some((333 * PX, 600 * PX)));
}

#[test]
fn ray_up_snaps_onto_ceiling_bottom() {
    let ceiling = RectCollider::new(0, 0, 1200 * PX, 64 * PX);
    let ray = Raycast::new(333 * PX, 400 * PX, Aim { dx: 0, dy: -PX }, vec![ceiling]);
    assert_eq!(ray.cast(), Some((333 * PX, 64 * PX)));
}

#[test]
fn ray_with_nothing_to_hit_leaves_the_field() {
    let ray = Raycast::new(100 * PX, 100 * PX, Aim { dx: 7 * PX, dy: 3 * PX }, vec![]);
    assert_eq!(ray.cast(), None);
}

#[test]
fn ray_starting_outside_the_field_gives_none() {
    let wall = RectCollider::new(500 * PX, 0, 64 * PX, 640 * PX);
    let ray = Raycast::new(-5 * PX, 300 * PX, Aim { dx: PX, dy: 0 }, vec![wall]);
    assert_eq!(ray.cast(), None);
}

#[test]
fn ray_in_a_closed_field_always_ends_on_a_wall() {
    let dirs = [
        (PX, 0),
        (-PX, 0),
        (0, PX),
        (0, -PX),
        (71, 71),
        (-71, 71),
        (71, -71),
        (-71, -71),
        (1, 0),
        (0, -1),
        (97, -24),
    ];
    for (dx, dy) in dirs {
        let ray = Raycast::new(600 * PX, 300 * PX, Aim { dx, dy }, boxed_field());
        let hit = ray.cast();
        assert!(hit.is_some(), "direction ({}, {}) escaped", dx, dy);
    }
}

#[test]
fn first_collider_in_list_order_wins_on_overlap() {
    let a = RectCollider::new(500 * PX, 0, 100 * PX, 640 * PX);
    let b = RectCollider::new(400 * PX, 0, 300 * PX, 640 * PX);
    // The second step lands at 501px, inside both; a comes first and its left
    // edge is within the tolerance, b's edges are not.
    let ray = Raycast::new(101 * PX, 300 * PX, Aim { dx: 200 * PX, dy: 0 }, vec![a, b]);
    assert_eq!(ray.cast(), Some((500 * PX, 300 * PX)));
    let ray = Raycast::new(101 * PX, 300 * PX, Aim { dx: 200 * PX, dy: 0 }, vec![b, a]);
    assert_eq!(ray.cast(), Some((501 * PX, 300 * PX)));
}

#[test]
fn snap_tolerance_is_five_pixels() {
    assert_eq!(SNAP_TOLERANCE, 5 * PX);
    // a step that lands 6px inside a thick wall is not snapped on x
    let wall = RectCollider::new(506 * PX, 0, 400 * PX, 640 * PX);
    let ray = Raycast::new(12 * PX, 300 * PX, Aim { dx: 50 * PX, dy: 0 }, vec![wall]);
    // points: 12, 62, ..., 512px; 512 is 6px inside: no snap on x, none on y either
    assert_eq!(ray.cast(), Some((512 * PX, 300 * PX)));
}
