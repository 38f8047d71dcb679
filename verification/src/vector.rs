//! Vectors: sequences that grow and shrink at their end.

use vstd::prelude::*;

verus! {

/// Appending an element makes a sequence one longer; taking the last element
/// off again gives back that element and leaves the sequence as it was.
pub proof fn lemma_push_then_pop<T>(s: Seq<T>, value: T)
    ensures
        s.push(value).len() == s.len() + 1,
        s.push(value).last() == value,
        s.push(value).drop_last() == s,
{
}

/// Collects the numbers from `start` up to, but not including, `end`.
pub fn collect_range(start: i32, end: i32) -> (numbers: Vec<i32>)
    ensures
        numbers@.len() == if start <= end {
            end - start
        } else {
            0
        },
        forall|i: int| 0 <= i < numbers@.len() ==> numbers@[i] == start + i,
{
    let mut numbers: Vec<i32> = Vec::new();
    let mut next: i32 = start;
    while next < end
        invariant
            start <= end ==> start <= next <= end,
            start > end ==> next == start,
            numbers@.len() == next - start,
            forall|i: int| 0 <= i < numbers@.len() ==> numbers@[i] == start + i,
        decreases end - next,
    {
        numbers.push(next);
        next = next + 1;
    }
    numbers
}

/// Walks over `xs` and writes down each element with its position.
pub fn enumerate(xs: &Vec<i32>) -> (pairs: Vec<(usize, i32)>)
    ensures
        pairs@.len() == xs@.len(),
        forall|i: int| 0 <= i < xs@.len() ==> pairs@[i] == (i as usize, xs@[i]),
{
    let mut pairs: Vec<(usize, i32)> = Vec::new();
    let mut position: usize = 0;
    while position < xs.len()
        invariant
            position <= xs@.len(),
            pairs@.len() == position,
            forall|i: int| 0 <= i < position ==> pairs@[i] == (i as usize, xs@[i]),
        decreases xs@.len() - position,
    {
        pairs.push((position, xs[position]));
        position = position + 1;
    }
    pairs
}

/// Multiplies each element of `xs` by three, in place.
///
/// Every product has to fit an `i32`.
pub fn triple_each(xs: &mut Vec<i32>)
    requires
        forall|i: int| 0 <= i < old(xs)@.len() ==> i32::MIN <= 3 * #[trigger] old(xs)@[i] <= i32::MAX,
    ensures
        final(xs)@.len() == old(xs)@.len(),
        forall|i: int| 0 <= i < old(xs)@.len() ==> final(xs)@[i] == 3 * old(xs)@[i],
{
    let mut position: usize = 0;
    while position < xs.len()
        invariant
            position <= xs@.len(),
            xs@.len() == old(xs)@.len(),
            forall|i: int| 0 <= i < position ==> xs@[i] == 3 * old(xs)@[i],
            forall|i: int| position <= i < xs@.len() ==> xs@[i] == old(xs)@[i],
            forall|i: int|
                0 <= i < old(xs)@.len() ==> i32::MIN <= 3 * #[trigger] old(xs)@[i] <= i32::MAX,
        decreases xs@.len() - position,
    {
        let value: i32 = xs[position];
        xs.set(position, value * 3);
        position = position + 1;
    }
}

/// What the study of vectors produced, step by step.
pub struct VectorTour {
    /// The numbers from 0 up to, but not including, 10.
    pub collected: Vec<i32>,
    /// The vector that the study starts from.
    pub initial: Vec<i32>,
    /// That vector once 4 was pushed onto it.
    pub pushed: Vec<i32>,
    /// Its length then.
    pub size: usize,
    /// Its second element.
    pub second: i32,
    /// What popping its last element gave.
    pub popped: Option<i32>,
    /// What was left, in the order in which a walk over it meets the elements.
    pub contents: Vec<i32>,
    /// The same elements, each with its position.
    pub positions: Vec<(usize, i32)>,
    /// The vector once each element was multiplied by three.
    pub tripled: Vec<i32>,
}

/// Collects a range into a vector; then takes the vector `[1, 2, 3]`, pushes
/// 4 onto it, reads its length and its second element, pops the last element
/// off, walks over what is left, without and with positions, and multiplies
/// each element by three.
pub fn vectors() -> (tour: VectorTour)
    ensures
        tour.collected@ == seq![0i32, 1, 2, 3, 4, 5, 6, 7, 8, 9],
        tour.initial@ == seq![1i32, 2, 3],
        tour.pushed@ == seq![1i32, 2, 3, 4],
        tour.size == 4,
        tour.second == 2,
        tour.popped == Some(4i32),
        tour.contents@ == seq![1i32, 2, 3],
        tour.positions@ == seq![(0usize, 1i32), (1usize, 2i32), (2usize, 3i32)],
        tour.tripled@ == seq![3i32, 6, 9],
{
    let collected: Vec<i32> = collect_range(0, 10);

    let mut xs: Vec<i32> = vec![1i32, 2, 3];
    let initial: Vec<i32> = xs.clone();

    xs.push(4);
    let pushed: Vec<i32> = xs.clone();

    let size: usize = xs.len();
    let second: i32 = xs[1];
    let popped: Option<i32> = xs.pop();

    let contents: Vec<i32> = xs.clone();
    let positions: Vec<(usize, i32)> = enumerate(&xs);

    triple_each(&mut xs);

    VectorTour { collected, initial, pushed, size, second, popped, contents, positions, tripled: xs }
}

} // verus!
