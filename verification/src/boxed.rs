//! Values on the stack and behind a box.
//!
//! A box owns a value that lives on the heap. What stays in the owner's frame
//! is one pointer, however large the value is, and reading through the box
//! gives the value back unchanged.

use vstd::layout::size_of;
use vstd::prelude::*;

verus! {

/// A point of the plane, over any coordinate type.
#[derive(Debug)]
pub struct Point<C> {
    /// How far to the right.
    pub x: C,
    /// How far up.
    pub y: C,
}

impl<C: Copy> Clone for Point<C> {
    fn clone(&self) -> (copy: Self)
        ensures
            copy == *self,
    {
        *self
    }
}

impl<C: Copy> Copy for Point<C> {

}

/// A rectangle, given by two opposite corners.
#[derive(Debug)]
pub struct Rectangle<C> {
    /// One corner.
    pub p1: Point<C>,
    /// The corner opposite to it.
    pub p2: Point<C>,
}

/// How many bytes each value of the study takes in its owner's frame.
#[derive(Debug, Clone, Copy)]
pub struct Footprints {
    /// A point on the stack.
    pub point: usize,
    /// A rectangle on the stack.
    pub rectangle: usize,
    /// A box that holds a point.
    pub boxed_point: usize,
    /// A box that holds a rectangle.
    pub boxed_rectangle: usize,
    /// A box that holds a box that holds a point.
    pub box_in_a_box: usize,
    /// A point that was copied out of its box.
    pub unboxed_point: usize,
}

/// The point whose two coordinates are both `zero`.
pub fn origin<C: Copy>(zero: C) -> (point: Point<C>)
    ensures
        point == (Point { x: zero, y: zero }),
{
    Point { x: zero, y: zero }
}

/// The point `origin(zero)`, allocated on the heap.
pub fn boxed_origin<C: Copy>(zero: C) -> (heap: Box<Point<C>>)
    ensures
        *heap == (Point { x: zero, y: zero }),
{
    Box::new(Point { x: zero, y: zero })
}

/// Moves `value` to the heap and takes it out again: what comes back is the
/// value that went in.
pub fn round_trip<T>(value: T) -> (back: T)
    ensures
        back == value,
{
    let heap: Box<T> = Box::new(value);
    *heap
}

/// How many bytes `value` takes where it stands.
#[allow(unused_variables)]
fn size_on_stack<T>(value: &T) -> (bytes: usize)
    ensures
        bytes as nat == size_of::<T>(),
{
    core::mem::size_of::<T>()
}

/// How many bytes the box itself takes, not what it points to.
///
/// This is `core::mem::size_of_val` applied to the box. Nothing here proves
/// what it returns: the contract repeats what the standard library documents
/// of `size_of`, that a `Box<T>` of a sized `T` is as large as a `usize`,
/// whatever `T` is.
#[verifier::external_body]
fn size_of_box<T>(heap: &Box<T>) -> (bytes: usize)
    ensures
        bytes as nat == size_of::<usize>(),
{
    core::mem::size_of_val(heap)
}

/// Builds a point and a rectangle on the stack, a point, a rectangle and a
/// boxed point on the heap, and measures each of them; then copies the boxed
/// point back to the stack and measures the copy.
///
/// The rectangle on the stack spans from the origin to `(width, height)`.
/// Returns the six sizes and the point that was read out of its box.
pub fn box_and_stack_and_heap<C: Copy>(zero: C, width: C, height: C) -> (outcome: (
    Footprints,
    Point<C>,
))
    ensures
        outcome.0.point == size_of::<Point<C>>(),
        outcome.0.rectangle == size_of::<Rectangle<C>>(),
        outcome.0.boxed_point == size_of::<usize>(),
        outcome.0.boxed_rectangle == size_of::<usize>(),
        outcome.0.box_in_a_box == size_of::<usize>(),
        outcome.0.unboxed_point == size_of::<Point<C>>(),
        outcome.1 == (Point { x: zero, y: zero }),
{
    let point: Point<C> = origin(zero);
    let rectangle: Rectangle<C> = Rectangle { p1: origin(zero), p2: Point { x: width, y: height } };
    let boxed_rectangle: Box<Rectangle<C>> = Box::new(
        Rectangle { p1: origin(zero), p2: origin(zero) },
    );
    let boxed_point: Box<Point<C>> = Box::new(origin(zero));
    let box_in_a_box: Box<Box<Point<C>>> = Box::new(boxed_origin(zero));

    let point_size: usize = size_on_stack(&point);
    let rectangle_size: usize = size_on_stack(&rectangle);
    let boxed_point_size: usize = size_of_box(&boxed_point);
    let boxed_rectangle_size: usize = size_of_box(&boxed_rectangle);
    let box_in_a_box_size: usize = size_of_box(&box_in_a_box);

    let unboxed_point: Point<C> = *boxed_point;
    let unboxed_point_size: usize = size_on_stack(&unboxed_point);

    (
        Footprints {
            point: point_size,
            rectangle: rectangle_size,
            boxed_point: boxed_point_size,
            boxed_rectangle: boxed_rectangle_size,
            box_in_a_box: box_in_a_box_size,
            unboxed_point: unboxed_point_size,
        },
        unboxed_point,
    )
}

} // verus!
