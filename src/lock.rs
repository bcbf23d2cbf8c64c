//! A combination lock fed one piece of the code at a time. It fails as soon
//! as what was entered can no longer be the start of the code, and opens
//! when it is the whole code.
use vstd::prelude::*;

verus! {

/// Where the lock stands.
#[derive(Debug, Clone, Copy, PartialEq, Eq, Structural)]
pub enum LockState {
    /// Waiting for more of the code.
    Locked,
    /// What was entered cannot lead to the code; it must be reset.
    Failed,
    /// The whole code was entered.
    Unlocked,
}

/// Whether `p` is a prefix of `s`.
pub open spec fn is_prefix(p: Seq<char>, s: Seq<char>) -> bool {
    p.len() <= s.len() && s.subrange(0, p.len() as int) == p
}

/// The state reached once `entry` has been entered.
pub open spec fn state_after(entry: Seq<char>, code: Seq<char>) -> LockState {
    if entry == code {
        LockState::Unlocked
    } else if !is_prefix(entry, code) {
        LockState::Failed
    } else {
        LockState::Locked
    }
}

/// Relies on `str::starts_with`: whether `prefix` matches the start of `s`.
#[verifier::external_body]
fn starts_with(s: &str, prefix: &str) -> (r: bool)
    ensures
        r == is_prefix(prefix@, s@),
{
    s.starts_with(prefix)
}

/// A lock with its secret code, its state and what was entered so far.
pub struct CombinationLock {
    code: String,
    state: LockState,
    entry: String,
}

impl CombinationLock {
    /// The code that opens the lock.
    pub closed spec fn code(&self) -> Seq<char> {
        self.code@
    }

    /// What was entered since the lock was last reset.
    pub closed spec fn entry(&self) -> Seq<char> {
        self.entry@
    }

    /// The state as seen in contracts.
    pub closed spec fn spec_state(&self) -> LockState {
        self.state
    }

    /// A locked lock that opens on `code`, with nothing entered.
    pub fn new(code: &str) -> (r: CombinationLock)
        ensures
            r.code() == code@,
            r.entry() == Seq::<char>::empty(),
            r.spec_state() == LockState::Locked,
    {
        CombinationLock { code: code.to_string(), state: LockState::Locked, entry: String::new() }
    }

    /// Where the lock stands.
    pub fn state(&self) -> (r: LockState)
        ensures
            r == self.spec_state(),
    {
        self.state
    }

    /// What was entered so far.
    pub fn entry_text(&self) -> (r: &String)
        ensures
            r@ == self.entry(),
    {
        &self.entry
    }

    /// Appends `digits` to the entry of a locked lock, then opens it if the
    /// entry is the code, or fails it if the entry is no prefix of the code.
    /// A lock that is not locked ignores the input.
    pub fn enter(&mut self, digits: &str)
        ensures
            final(self).code() == old(self).code(),
            old(self).spec_state() == LockState::Locked ==> {
                &&& final(self).entry() == old(self).entry() + digits@
                &&& final(self).spec_state() == state_after(final(self).entry(), final(self).code())
            },
            old(self).spec_state() != LockState::Locked ==> *final(self) == *old(self),
    {
        if self.state != LockState::Locked {
            return;
        }
        self.entry.append(digits);
        if self.entry == self.code {
            self.state = LockState::Unlocked;
        } else if !starts_with(self.code.as_str(), self.entry.as_str()) {
            self.state = LockState::Failed;
        }
    }

    /// Clears the entry of a failed lock and locks it again; any other lock
    /// is left as it is.
    pub fn reset(&mut self)
        ensures
            final(self).code() == old(self).code(),
            old(self).spec_state() == LockState::Failed ==> {
                &&& final(self).entry() == Seq::<char>::empty()
                &&& final(self).spec_state() == LockState::Locked
            },
            old(self).spec_state() != LockState::Failed ==> *final(self) == *old(self),
    {
        if self.state == LockState::Failed {
            self.entry = String::new();
            self.state = LockState::Locked;
        }
    }

    /// Clears the entry of an open lock, which stays open; any other lock is
    /// left as it is.
    pub fn finish(&mut self)
        ensures
            final(self).code() == old(self).code(),
            final(self).spec_state() == old(self).spec_state(),
            old(self).spec_state() == LockState::Unlocked ==> final(self).entry() == Seq::<char>::empty(),
            old(self).spec_state() != LockState::Unlocked ==> *final(self) == *old(self),
    {
        if self.state == LockState::Unlocked {
            self.entry = String::new();
        }
    }
}

} // verus!
