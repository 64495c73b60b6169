use vstd::prelude::*;

verus! {

/// Why a release of the lock was refused.
#[derive(PartialEq, Eq, Structural, Clone, Copy, Debug)]
pub enum GateError {
    /// The lock was already released once; a second release means an
    /// invariant of the caller was broken.
    AlreadyUnlocked,
}

/// The single point that turns an accepted password into the one signal
/// that releases the lock.
pub struct UnlockGate {
    unlocked: bool,
}

impl View for UnlockGate {
    type V = bool;

    /// Whether the lock has been released.
    closed spec fn view(&self) -> bool {
        self.unlocked
    }
}

impl UnlockGate {
    /// A signal that has not been given.
    pub fn new() -> (r: UnlockGate)
        ensures
            !r@,
    {
        UnlockGate { unlocked: false }
    }

    /// Releases the lock. The first call succeeds; every later one is refused
    /// and changes nothing.
    pub fn signal(&mut self) -> (r: Result<(), GateError>)
        ensures
            final(self)@,
            r is Ok <==> !old(self)@,
            r is Err ==> r == Err::<(), GateError>(GateError::AlreadyUnlocked),
    {
        if self.unlocked {
            Err(GateError::AlreadyUnlocked)
        } else {
            self.unlocked = true;
            Ok(())
        }
    }

    /// Whether the lock has been released.
    pub fn is_unlocked(&self) -> (r: bool)
        ensures
            r == self@,
    {
        self.unlocked
    }
}

} // verus!
