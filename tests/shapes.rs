use portal_engine::ellipsoid_collider::{check_collision, resist, Ellipse, Point};

#[test]
fn unit_circle_has_only_its_centre() {
    let e = Ellipse::new(5, -3, 1);
    assert_eq!(e.get_points(), vec![Point::new(5, -3)]);
}

#[test]
fn radius_two_circle_points_in_order() {
    let e = Ellipse::new(0, 0, 2);
    let expected: Vec<Point> = [(-1, -1), (-1, 0), (-1, 1), (0, -1), (0, 0), (0, 1), (1, -1), (1, 0), (1, 1)]
        .iter()
        .map(|&(x, y)| Point::new(x, y))
        .collect();
    assert_eq!(e.get_points(), expected);
}

#[test]
fn zero_radius_circle_has_no_points() {
    assert!(Ellipse::new(0, 0, 0).get_points().is_empty());
}

#[test]
fn circle_bounds() {
    let mut e = Ellipse::new(10, 20, 3);
    assert_eq!((e.left(), e.right(), e.top(), e.bottom()), (7, 13, 17, 23));
    e.set_x(0);
    e.set_y(0);
    assert_eq!((e.x(), e.y(), e.r()), (0, 0, 3));
}

#[test]
fn circles_collide_only_when_closer_than_radius_sum() {
    let a = Ellipse::new(0, 0, 1);
    assert!(check_collision(&a, &Ellipse::new(2, 0, 2)));
    assert!(!check_collision(&a, &Ellipse::new(3, 0, 2)));
    assert!(!check_collision(&a, &Ellipse::new(3, 4, 4)));
    assert!(check_collision(&a, &Ellipse::new(3, 4, 5)));
    let far = Ellipse::new(i32::MIN, i32::MIN, u32::MAX);
    assert!(check_collision(&Ellipse::new(i32::MAX, i32::MAX, u32::MAX), &far));
}

#[test]
fn resist_slows_toward_rest() {
    assert_eq!(resist(5, 0), -1);
    assert_eq!(resist(-5, 0), 1);
    assert_eq!(resist(0, 0), 0);
    assert_eq!(resist(5, 3), 3);
}
