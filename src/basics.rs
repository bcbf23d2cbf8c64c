//! Small arithmetic, matching and closure helpers.
use vstd::prelude::*;

verus! {

/// The word used for a count of `x` items.
pub open spec fn count_word(x: i32) -> Seq<char> {
    if x == 0 {
        "no"@
    } else if x == 1 || x == 2 {
        "one or two"@
    } else if x == 12 {
        "a dozen"@
    } else if 9 <= x <= 11 {
        "lots of"@
    } else if x % 2 == 0 {
        "some"@
    } else {
        "a few"@
    }
}

/// Describes a count in words: "no", "one or two", "lots of" (9 to 11),
/// "a dozen", then "some" for other even counts and "a few" for odd ones.
pub fn how_many(x: i32) -> (r: &'static str)
    ensures
        r@ == count_word(x),
{
    match x {
        0 => "no",
        1 | 2 => "one or two",
        12 => "a dozen",
        9..=11 => "lots of",
        _ if x % 2 == 0 => "some",
        _ => "a few",
    }
}

/// The sum and the product of `x` and `y`, both of which must fit in `i32`.
pub fn sum_and_the_product(x: i32, y: i32) -> (r: (i32, i32))
    requires
        i32::MIN <= x + y <= i32::MAX,
        i32::MIN <= x * y <= i32::MAX,
    ensures
        r.0 == x + y,
        r.1 == x * y,
{
    (x + y, x * y)
}

/// Adds one to the value behind `x`.
pub fn increment(x: &mut i32)
    requires
        *old(x) < i32::MAX,
    ensures
        *final(x) == *old(x) + 1,
{
    *x += 1;
}

/// The product of `x` and `y`, which must fit in `i32`.
pub fn product(x: i32, y: i32) -> (r: i32)
    requires
        i32::MIN <= x * y <= i32::MAX,
    ensures
        r == x * y,
{
    x * y
}

/// Whether `x` is divisible by two.
pub fn is_even(x: u32) -> (r: bool)
    ensures
        r == (x % 2 == 0),
{
    x % 2 == 0
}

/// A test that holds of exactly the numbers above `limit`.
pub fn greater_than(limit: u32) -> (r: impl Fn(u32) -> bool)
    ensures
        forall|y: u32| call_requires(r, (y,)),
        forall|y: u32, b: bool| call_ensures(r, (y,), b) ==> b == (y > limit),
{
    move |y: u32| -> (b: bool)
        ensures
            b == (y > limit),
        { y > limit }
}

} // verus!
