//! A person whose name can be lent out for as long as the person lives.
use vstd::prelude::*;

verus! {

/// A person, identified by name.
pub struct Person {
    pub name: String,
}

impl Person {
    /// Lends the person's name; the borrow lasts as long as `self`'s.
    pub fn get_ref_name(&self) -> (r: &String)
        ensures
            r == &self.name,
    {
        &self.name
    }
}

/// A company whose chief executive must outlive it.
pub struct Company<'z> {
    pub name: String,
    pub ceo: &'z Person,
}

} // verus!
