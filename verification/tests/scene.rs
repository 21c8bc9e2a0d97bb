use weathr::scene::{lawn_bounds, pond_bounds, LawnBounds, POND_HEIGHT, POND_WIDTH};

#[test]
fn lawn_covers_green_and_brown_ground_without_status_row() {
    let lawn = lawn_bounds(80, 24, 17).expect("normal terminal has a lawn");
    assert_eq!(lawn.top, 17);
    assert_eq!(lawn.bottom, 22);
    assert_eq!(lawn.height(), 6);
    assert_eq!(lawn.right, 79);
}

#[test]
fn pond_is_stable_and_inside_lawn() {
    let lawn = lawn_bounds(80, 24, 17).unwrap();
    let pond = pond_bounds(80, 24, 17).unwrap();
    assert!(pond.x >= lawn.left);
    assert!(pond.right() <= lawn.right);
    assert!(pond.y >= lawn.top);
    assert!(pond.bottom() <= lawn.bottom);
    assert_eq!(pond.width, POND_WIDTH);
    assert_eq!(pond.height, POND_HEIGHT);
}

#[test]
fn tiny_terminals_hide_geometry_instead_of_underflowing() {
    assert!(lawn_bounds(0, 24, 17).is_none());
    assert!(lawn_bounds(70, 2, 1).is_none());
    assert!(pond_bounds(15, 24, 17).is_none());
}

#[test]
fn pond_sits_two_columns_in_from_the_lower_right() {
    let pond = pond_bounds(80, 24, 17).unwrap();
    assert_eq!((pond.x, pond.y), (64, 20));
    assert_eq!(pond.right(), 76);
    assert_eq!(pond.bottom(), 22);
    assert_eq!(pond.center_x(), 70);
    assert!(pond_bounds(17, 24, 17).is_some());
    assert!(pond_bounds(16, 24, 17).is_none());
    assert!(pond_bounds(80, 24, 21).is_none());
}

#[test]
fn horizon_below_the_last_lawn_row_leaves_no_lawn() {
    assert!(lawn_bounds(80, 24, 23).is_none());
    let lawn = lawn_bounds(80, 24, 22).unwrap();
    assert_eq!(lawn.height(), 1);
    let odd = LawnBounds { left: 5, top: 3, right: 2, bottom: 1 };
    assert_eq!(odd.width(), 1);
    assert_eq!(odd.height(), 1);
}
