use las_bounds::geometry::bbox_ring;

#[test]
fn ring_of_unit_box() {
    let r = bbox_ring(0.0f64, 0.0, 10.0, 10.0);
    assert_eq!(r, vec![(0.0, 0.0), (10.0, 0.0), (10.0, 10.0), (0.0, 10.0), (0.0, 0.0)]);
}

#[test]
fn ring_is_closed_with_the_four_corners() {
    let (x0, y0, x1, y1) = (-3.5f64, 2.25, 7.0, 9.75);
    let r = bbox_ring(x0, y0, x1, y1);
    assert_eq!(r.len(), 5);
    assert_eq!(r[0], r[4]);
    for &(x, y) in &r[..4] {
        assert!(x == x0 || x == x1);
        assert!(y == y0 || y == y1);
    }
    for c in [(x0, y0), (x1, y0), (x1, y1), (x0, y1)] {
        assert!(r[..4].contains(&c));
    }
}

#[test]
fn ring_of_integer_box() {
    let r = bbox_ring(1i64, 2, 3, 4);
    assert_eq!(r, vec![(1, 2), (3, 2), (3, 4), (1, 4), (1, 2)]);
}
