//! Summing the elements of a collection through a trait of this library,
//! implemented here for a type of the standard library.
use vstd::prelude::*;

verus! {

/// The exact sum of the first `n` elements of `s`.
pub open spec fn sum_prefix(s: Seq<i32>, n: int) -> int
    decreases n,
{
    if n <= 0 {
        0
    } else {
        sum_prefix(s, n - 1) + s[n - 1]
    }
}

/// Every running total of `s`, from the first element to the last, fits in `i32`.
pub open spec fn running_sums_fit(s: Seq<i32>) -> bool {
    forall|n: int| 0 <= n <= s.len() ==> i32::MIN <= #[trigger] sum_prefix(s, n) <= i32::MAX
}

/// Collections whose elements add up to a value of type `T`.
pub trait Summable<T> {
    /// Whether the sum can be computed without overflow.
    spec fn sum_fits(&self) -> bool;

    /// The sum as seen in contracts.
    spec fn spec_sum(&self) -> T;

    /// Adds up all the elements.
    fn sum(&self) -> (r: T)
        requires
            self.sum_fits(),
        ensures
            r == self.spec_sum(),
    ;
}

impl Summable<i32> for Vec<i32> {
    open spec fn sum_fits(&self) -> bool {
        running_sums_fit(self@)
    }

    open spec fn spec_sum(&self) -> i32 {
        sum_prefix(self@, self@.len() as int) as i32
    }

    fn sum(&self) -> (r: i32) {
        let mut result: i32 = 0;
        let mut i: usize = 0;
        while i < self.len()
            invariant
                i <= self@.len(),
                running_sums_fit(self@),
                result == sum_prefix(self@, i as int),
            decreases self@.len() - i,
        {
            assert(i32::MIN <= sum_prefix(self@, i as int + 1) <= i32::MAX);
            result = result + self[i];
            i = i + 1;
        }
        result
    }
}

} // verus!
