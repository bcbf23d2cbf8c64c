//! A person whose name is shared through a reference-counted pointer.
use vstd::prelude::*;
use std::rc::Rc;

verus! {

/// A person holding one share of a reference-counted name.
pub struct Person {
    pub name: Rc<String>,
}

impl Person {
    /// A person holding `name`, one more owner of the shared string.
    pub fn new(name: Rc<String>) -> (r: Person)
        ensures
            r.name == name,
    {
        Person { name }
    }
}

} // verus!
