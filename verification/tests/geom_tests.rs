use invaders::geom::{
    COORD_LIMIT, Rect, clip_add, clip_mul, contains_point, overlaps, rect_from_centre, rgb,
    sat_add_u32, sat_mul_u32,
};

#[test]
fn clip_add_is_exact_in_range_and_saturates() {
    assert_eq!(clip_add(3, 4), 7);
    assert_eq!(clip_add(-3, -4), -7);
    assert_eq!(clip_add(COORD_LIMIT, 1), COORD_LIMIT);
    assert_eq!(clip_add(-COORD_LIMIT, -1), -COORD_LIMIT);
    assert_eq!(clip_add(i64::MAX, i64::MAX), COORD_LIMIT);
    assert_eq!(clip_add(i64::MIN, i64::MIN), -COORD_LIMIT);
}

#[test]
fn clip_mul_is_exact_in_range_and_saturates() {
    assert_eq!(clip_mul(500, 16), 8000);
    assert_eq!(clip_mul(-500, 16), -8000);
    assert_eq!(clip_mul(i64::MAX, 2), COORD_LIMIT);
    assert_eq!(clip_mul(i64::MAX, -2), -COORD_LIMIT);
    assert_eq!(clip_mul(0, i64::MAX), 0);
}

#[test]
fn saturating_score_arithmetic() {
    assert_eq!(sat_add_u32(3, 4), 7);
    assert_eq!(sat_add_u32(u32::MAX, 5), u32::MAX);
    assert_eq!(sat_mul_u32(100, 7), 700);
    assert_eq!(sat_mul_u32(u32::MAX, 2), u32::MAX);
}

#[test]
fn rect_from_centre_splits_sizes() {
    let r = rect_from_centre(100, 200, 40, 60);
    assert_eq!(r, Rect { x: 80, y: 170, w: 40, h: 60 });
}

#[test]
fn rects_touching_at_an_edge_do_not_overlap() {
    let a = Rect { x: 0, y: 0, w: 10, h: 10 };
    let b = Rect { x: 10, y: 0, w: 10, h: 10 };
    assert!(!overlaps(&a, &b));
    let c = Rect { x: 9, y: 9, w: 10, h: 10 };
    assert!(overlaps(&a, &c));
    let empty = Rect { x: 0, y: 0, w: 0, h: 10 };
    assert!(!overlaps(&a, &empty));
}

#[test]
fn point_containment_is_half_open() {
    let r = Rect { x: 10, y: 20, w: 5, h: 5 };
    assert!(contains_point(&r, 10, 20));
    assert!(contains_point(&r, 14, 24));
    assert!(!contains_point(&r, 15, 20));
    assert!(!contains_point(&r, 10, 25));
    assert!(!contains_point(&r, 9, 20));
}

#[test]
fn colour_channels_round_trip() {
    let c = rgb(10, 20, 30);
    assert_eq!((c.red, c.green, c.blue), (10, 20, 30));
}
