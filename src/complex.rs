//! A complex number over any component type, with `+` and unary `-`
//! defined part by part.
use vstd::prelude::*;
use vstd::std_specs::ops::{AddSpec, AddSpecImpl, NegSpec, NegSpecImpl};
use std::ops::{Add, Neg};

verus! {

/// A complex number with real part `re` and imaginary part `im`.
#[derive(Debug, PartialEq, Eq, PartialOrd, Ord)]
pub struct Complex<T> {
    pub re: T,
    pub im: T,
}

impl<T> Complex<T> {
    /// The number `re + im·i`.
    pub fn new(re: T, im: T) -> (r: Complex<T>)
        ensures
            r.re == re,
            r.im == im,
    {
        Complex { re, im }
    }
}

impl<T: Add<Output = T>> AddSpecImpl for Complex<T> {
    open spec fn obeys_add_spec() -> bool {
        <T as AddSpec>::obeys_add_spec()
    }

    open spec fn add_req(self, rhs: Complex<T>) -> bool {
        self.re.add_req(rhs.re) && self.im.add_req(rhs.im)
    }

    open spec fn add_spec(self, rhs: Complex<T>) -> Complex<T> {
        Complex { re: self.re.add_spec(rhs.re), im: self.im.add_spec(rhs.im) }
    }
}

impl<T: Add<Output = T>> Add for Complex<T> {
    type Output = Complex<T>;

    /// Adds the real parts and the imaginary parts.
    fn add(self, rhs: Complex<T>) -> (r: Complex<T>) {
        Complex { re: self.re.add(rhs.re), im: self.im.add(rhs.im) }
    }
}

impl<T: Neg<Output = T>> NegSpecImpl for Complex<T> {
    open spec fn obeys_neg_spec() -> bool {
        <T as NegSpec>::obeys_neg_spec()
    }

    open spec fn neg_req(self) -> bool {
        self.re.neg_req() && self.im.neg_req()
    }

    open spec fn neg_spec(self) -> Complex<T> {
        Complex { re: self.re.neg_spec(), im: self.im.neg_spec() }
    }
}

impl<T: Neg<Output = T>> Neg for Complex<T> {
    type Output = Complex<T>;

    /// Negates both parts.
    fn neg(self) -> (r: Complex<T>) {
        Complex { re: self.re.neg(), im: self.im.neg() }
    }
}

} // verus!
