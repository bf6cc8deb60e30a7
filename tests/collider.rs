use portal_engine::rect_collider::RectCollider;

#[test]
fn overlapping_rects_touch() {
    let a = RectCollider::new(0, 0, 100, 100);
    let b = RectCollider::new(50, 50, 100, 100);
    assert!(a.is_touching(&b));
    assert!(b.is_touching(&a));
}

#[test]
fn rects_sharing_an_edge_do_not_touch() {
    let a = RectCollider::new(0, 0, 100, 100);
    let right = RectCollider::new(100, 0, 100, 100);
    let below = RectCollider::new(0, 100, 100, 100);
    let corner = RectCollider::new(100, 100, 50, 50);
    assert!(!a.is_touching(&right));
    assert!(!right.is_touching(&a));
    assert!(!a.is_touching(&below));
    assert!(!below.is_touching(&a));
    assert!(!a.is_touching(&corner));
}

#[test]
fn rects_one_unit_into_each_other_touch() {
    let a = RectCollider::new(0, 0, 100, 100);
    let b = RectCollider::new(99, 99, 10, 10);
    assert!(a.is_touching(&b));
}

#[test]
fn point_on_border_is_not_contained() {
    let a = RectCollider::new(10, 20, 30, 40);
    assert!(a.contains_point(11, 21));
    assert!(a.contains_point(39, 59));
    assert!(!a.contains_point(10, 30));
    assert!(!a.contains_point(40, 30));
    assert!(!a.contains_point(20, 20));
    assert!(!a.contains_point(20, 60));
}

#[test]
fn zero_sized_rect_touches_nothing() {
    let empty = RectCollider::new(50, 50, 0, 0);
    let big = RectCollider::new(0, 0, 100, 100);
    assert!(!empty.is_touching(&big));
    assert!(!big.contains_point(0, 0));
}

#[test]
fn setters_change_one_field() {
    let mut a = RectCollider::new(1, 2, 3, 4);
    a.set_x(10);
    a.set_y(20);
    a.set_width(30);
    a.set_height(40);
    assert_eq!((a.x(), a.y(), a.width(), a.height()), (10, 20, 30, 40));
}
