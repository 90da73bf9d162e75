use rust_basics::rectangles::{area, Rectangle};

#[test]
fn larger_can_hold_smaller() {
    let larger = Rectangle {
        width: 8,
        height: 7,
    };
    let smaller = Rectangle {
        width: 5,
        height: 1,
    };
    assert!(larger.can_hold(&smaller));
}

#[test]
fn smaller_cannot_hold_larger() {
    let larger = Rectangle {
        width: 8,
        height: 7,
    };
    let smaller = Rectangle {
        width: 5,
        height: 1,
    };
    assert!(smaller.can_hold(&larger) == false)
}

#[test]
fn area_of_a_rectangle() {
    let rect = Rectangle {
        width: 30,
        height: 50,
    };
    assert_eq!(rect.area(), 1500);
    assert_eq!(area(&rect), 1500);
}

#[test]
fn square_has_equal_sides() {
    let square = Rectangle::square(20);
    assert_eq!(square.width, 20);
    assert_eq!(square.height, 20);
    assert!(square.width());
}

#[test]
fn zero_width_rectangle() {
    let flat = Rectangle {
        width: 0,
        height: 9,
    };
    assert!(!flat.width());
    assert_eq!(flat.area(), 0);
}
