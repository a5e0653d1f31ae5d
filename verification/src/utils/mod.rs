//! Small helpers shared by the game and the interface.

use vstd::prelude::*;
use vstd::std_specs::cmp::PartialOrdSpec;
use vstd::std_specs::ops::{AddSpec, SubSpec};
use std::cmp::Ordering;
use std::ops::{Add, Sub};

pub mod animation;
pub mod font_atlas;
pub mod glyph;
pub mod text;
pub mod tile_atlas;

verus! {

/// Where `current` gets to when it moves towards `value` by `step`: one step
/// nearer, but not past `value`.
pub open spec fn approached<T>(current: T, value: T, step: T) -> T where
    T: PartialOrd + Add<Output = T> + Sub<Output = T> + Copy,
 {
    if current.partial_cmp_spec(&value) == Some(Ordering::Less) {
        let result = current.add_spec(step);
        if result.partial_cmp_spec(&value) == Some(Ordering::Greater) {
            value
        } else {
            result
        }
    } else {
        let result = current.sub_spec(step);
        if result.partial_cmp_spec(&value) == Some(Ordering::Less) {
            value
        } else {
            result
        }
    }
}

/// Moves `current` towards `value` by `step` without passing `value`.
///
/// Below `value` the step is added, else it is taken away; the sum or the
/// difference must be one that the type can form.
pub fn approach<T>(current: T, value: T, step: T) -> (r: T) where
    T: PartialOrd + Add<Output = T> + Sub<Output = T> + Copy,

    requires
        T::obeys_partial_cmp_spec() && current.partial_cmp_spec(&value) == Some(Ordering::Less)
            ==> current.add_req(step),
        T::obeys_partial_cmp_spec() && current.partial_cmp_spec(&value) != Some(Ordering::Less)
            ==> current.sub_req(step),
        !T::obeys_partial_cmp_spec() ==> current.add_req(step) && current.sub_req(step),
    ensures
        T::obeys_partial_cmp_spec() && T::obeys_add_spec() && T::obeys_sub_spec() ==> r == approached(
            current,
            value,
            step,
        ),
{
    if current < value {
        let result = current + step;
        if result > value {
            value
        } else {
            result
        }
    } else {
        let result = current - step;
        if result < value {
            value
        } else {
            result
        }
    }
}

/// On integers, a positive step brings `current` strictly nearer to `value`
/// or onto it, and never past it.
pub proof fn lemma_approach_integers(current: i64, value: i64, step: i64)
    requires
        step > 0,
        i64::MIN <= current - step,
        current + step <= i64::MAX,
    ensures
        current < value ==> current < approached(current, value, step) <= value,
        current > value ==> value <= approached(current, value, step) < current,
        current == value ==> approached(current, value, step) == value,
{
}

} // verus!
