//! A person built from anything that converts into a `String`.
use vstd::prelude::*;
use vstd::std_specs::convert::IntoSpec;

verus! {

/// A person, identified by name.
pub struct Person {
    pub name: String,
}

impl Person {
    /// A person whose name is a copy of `name`.
    pub fn new(name: &str) -> (r: Person)
        ensures
            r.name@ == name@,
    {
        Person { name: name.to_string() }
    }

    /// A person whose name is `name` converted into a `String`.
    pub fn new_into<S: Into<String>>(name: S) -> (r: Person)
        ensures
            S::obeys_into_spec() ==> r.name == name.into_spec(),
    {
        Person { name: name.into() }
    }

    /// The same as `new_into`, with the conversion bound written as a
    /// `where` clause.
    pub fn new_where<S>(name: S) -> (r: Person)
        where
            S: Into<String>,
        ensures
            S::obeys_into_spec() ==> r.name == name.into_spec(),
    {
        Person { name: name.into() }
    }
}

} // verus!
