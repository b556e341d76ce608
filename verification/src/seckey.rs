//! A secret that is reachable only for the length of one operation at a time.
//!
//! The key keeps the state of its lock. The pages are locked by the caller, before the key
//! is made, and unlocked by the caller, after the key has been destroyed.

use crate::zerosafe::{zeros, ZeroSafe};
use vstd::prelude::*;

verus! {

/// Whether a guarded value can be reached.
#[derive(Clone, Copy, Debug, PartialEq, Eq, Structural)]
pub enum LockState {
    /// At rest: nothing can reach the value.
    Locked,
    /// One operation is at work on the value.
    Unlocked,
}

impl LockState {
    /// The state after an access begins: only a value at rest can be opened.
    pub open spec fn opened(self) -> Option<LockState> {
        match self {
            LockState::Locked => Some(LockState::Unlocked),
            LockState::Unlocked => None,
        }
    }

    /// The state after an access ends: only an opened value can be closed.
    pub open spec fn closed_again(self) -> Option<LockState> {
        match self {
            LockState::Locked => None,
            LockState::Unlocked => Some(LockState::Locked),
        }
    }

    /// Begins an access. A value that is already being worked on admits no second access.
    pub fn begin_access(self) -> (next: Option<LockState>)
        ensures
            next == self.opened(),
    {
        match self {
            LockState::Locked => Some(LockState::Unlocked),
            LockState::Unlocked => None,
        }
    }

    /// Ends the access that is under way.
    pub fn end_access(self) -> (next: Option<LockState>)
        ensures
            next == self.closed_again(),
    {
        match self {
            LockState::Locked => None,
            LockState::Unlocked => Some(LockState::Locked),
        }
    }
}

/// Secure key: a secret on the heap that is marked locked except while one caller-supplied
/// operation reads or changes it. No method hands out the secret itself.
pub struct SecKey<T: ZeroSafe> {
    value: Box<T>,
    state: LockState,
}

impl<T: ZeroSafe> SecKey<T> {
    /// The secret held.
    pub closed spec fn secret(&self) -> T {
        *self.value
    }

    /// The state of the lock.
    pub closed spec fn state(&self) -> LockState {
        self.state
    }

    /// Takes over `storage`, which holds the secret, given the outcome `locked` of the
    /// attempt to lock it. Where the attempt failed there is no key: the storage is wiped
    /// and dropped.
    pub fn new(storage: Box<T>, locked: bool) -> (key: Option<SecKey<T>>)
        ensures
            locked ==> key.is_some() && key.unwrap().secret() == *storage && key.unwrap().state()
                == LockState::Locked,
            !locked ==> key.is_none(),
    {
        if locked {
            Some(SecKey { value: storage, state: LockState::Locked })
        } else {
            let mut storage = storage;
            (*storage).wipe();
            None
        }
    }

    /// Tells whether the key is at rest, as it is whenever no access is under way.
    pub fn is_locked(&self) -> (at_rest: bool)
        ensures
            at_rest == (self.state() == LockState::Locked),
    {
        self.state == LockState::Locked
    }

    /// Marks the key unlocked, lets `f` read the secret, and marks the key locked again
    /// before it returns what `f` returned. `f` sees the secret as it was, and the secret
    /// stays as it was.
    pub fn read_map<U, F: FnOnce(&T) -> U>(&mut self, f: F) -> (out: U)
        requires
            old(self).state() == LockState::Locked,
            call_requires(f, (&old(self).secret(),)),
        ensures
            call_ensures(f, (&old(self).secret(),), out),
            final(self).secret() == old(self).secret(),
            final(self).state() == LockState::Locked,
    {
        self.state = self.state.begin_access().unwrap();
        let out = f(&*self.value);
        self.state = self.state.end_access().unwrap();
        out
    }

    /// Marks the key unlocked, lets `f` read and change the secret, and marks the key locked
    /// again before it returns what `f` returned. `f` starts from the secret as it was, and
    /// what `f` leaves is the secret from then on.
    pub fn write_map<U, F: FnOnce(&mut T) -> U>(&mut self, f: F) -> (out: U)
        requires
            old(self).state() == LockState::Locked,
            forall|m: &mut T| *m == old(self).secret() ==> call_requires(f, (m,)),
        ensures
            exists|m: &mut T|
                *m == old(self).secret() && *final(m) == final(self).secret() && call_ensures(
                    f,
                    (m,),
                    out,
                ),
            final(self).state() == LockState::Locked,
    {
        self.state = self.state.begin_access().unwrap();
        let slot: &mut T = &mut *self.value;
        assert(*slot == old(self).secret());
        let out = f(slot);
        self.state = self.state.end_access().unwrap();
        out
    }

    /// Gives the key up, in whatever state it is: overwrites the secret's whole
    /// representation with zero bytes and hands the storage back, so that it can be
    /// unlocked and released.
    pub fn destroy(self) -> (storage: Box<T>)
        ensures
            storage.repr() == zeros(self.secret().repr().len()),
    {
        let mut storage = self.value;
        (*storage).wipe();
        storage
    }
}

} // verus!
