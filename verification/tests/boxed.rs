use std::mem::size_of;
use std_library_types::boxed::{box_and_stack_and_heap, boxed_origin, origin, round_trip, Point};

#[test]
fn origin_has_both_coordinates_zero() {
    let point = origin(0.0f64);
    assert_eq!(point.x, 0.0);
    assert_eq!(point.y, 0.0);
}

#[test]
fn boxed_origin_holds_the_origin() {
    let heap: Box<Point<i64>> = boxed_origin(0i64);
    assert_eq!(heap.x, 0);
    assert_eq!(heap.y, 0);
}

#[test]
fn sizes_of_float_points_and_their_boxes() {
    let (sizes, unboxed) = box_and_stack_and_heap(0.0f64, 3.0, 4.0);
    assert_eq!(sizes.point, 16);
    assert_eq!(sizes.rectangle, 32);
    assert_eq!(sizes.boxed_point, size_of::<usize>());
    assert_eq!(sizes.boxed_rectangle, size_of::<usize>());
    assert_eq!(sizes.box_in_a_box, size_of::<usize>());
    assert_eq!(sizes.unboxed_point, 16);
    assert_eq!(unboxed.x, 0.0);
    assert_eq!(unboxed.y, 0.0);
}

#[test]
fn a_box_is_one_pointer_whatever_it_points_to() {
    let (small, _) = box_and_stack_and_heap(0u8, 3, 4);
    let (large, _) = box_and_stack_and_heap([0u64; 32], [3u64; 32], [4u64; 32]);
    assert_eq!(small.point, 2);
    assert_eq!(small.rectangle, 4);
    assert_eq!(large.point, 512);
    assert_eq!(large.rectangle, 1024);
    for sizes in [small, large] {
        assert_eq!(sizes.boxed_point, size_of::<usize>());
        assert_eq!(sizes.boxed_rectangle, size_of::<usize>());
        assert_eq!(sizes.box_in_a_box, size_of::<usize>());
    }
}

#[test]
fn unboxed_point_is_the_point_that_was_boxed() {
    let (_, unboxed) = box_and_stack_and_heap(7i32, 3, 4);
    assert_eq!(unboxed.x, 7);
    assert_eq!(unboxed.y, 7);
}

#[test]
fn round_trip_gives_the_value_back() {
    assert_eq!(round_trip(42u64), 42);
    assert_eq!(round_trip(-1.5f64), -1.5);
    assert_eq!(round_trip(String::from("heap")), "heap");
    assert_eq!(round_trip(vec![1, 2, 3]), vec![1, 2, 3]);
    let point = round_trip(Point { x: 3.0f32, y: 4.0f32 });
    assert_eq!(point.x, 3.0);
    assert_eq!(point.y, 4.0);
}

#[test]
fn points_can_be_copied() {
    let point = Point { x: 1u8, y: 2u8 };
    let copy = point;
    let clone = point.clone();
    assert_eq!((point.x, point.y), (1, 2));
    assert_eq!((copy.x, copy.y), (1, 2));
    assert_eq!((clone.x, clone.y), (1, 2));
}
