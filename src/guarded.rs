//! A person whose name is shared across threads and whose mood sits behind
//! a lock, so that one thread at a time may change it.
use vstd::prelude::*;
use std::sync::{Arc, Mutex};

verus! {

/// A lock of the standard library around a `String`; its contents are not
/// seen by contracts.
#[verifier::external_type_specification]
#[verifier::external_body]
#[verifier::reject_recursive_types(T)]
pub struct ExMutex<T: ?Sized>(Mutex<T>);

/// A person with a shared name and a shared, lock-guarded mood.
pub struct Person {
    pub name: Arc<String>,
    pub state: Arc<Mutex<String>>,
}

impl Person {
    /// A person holding one more share of `name` and of `state`.
    pub fn new(name: Arc<String>, state: Arc<Mutex<String>>) -> (r: Person)
        ensures
            r.name == name,
            r.state == state,
    {
        Person { name, state }
    }
}

/// The mood that a greeting leaves behind.
pub open spec fn excited() -> Seq<char> {
    seq!['e', 'x', 'c', 'i', 't', 'e', 'd']
}

/// Replaces whatever `state` held by the text "excited"; callers run it
/// while holding the lock on a person's mood.
pub fn become_excited(state: &mut String)
    ensures
        final(state)@ == excited(),
{
    let mut fresh = String::new();
    fresh.append("excited");
    proof {
        reveal_strlit("excited");
    }
    *state = fresh;
}

} // verus!
