//! The guard of a mutable callback.
//!
//! The engine is entered again from within its own calls: a callback that the
//! host has handed to a script may run script code, which may call the same
//! callback once more. For a callback that is borrowed mutably the second
//! entry must be refused, and the guard is where that is decided.

use vstd::prelude::*;
use crate::error::Error;

verus! {

/// The borrow flag of one mutable callback: set at entry, cleared at exit.
#[derive(Debug)]
pub struct MutCallback {
    running: bool,
}

impl MutCallback {
    /// Whether an invocation of the callback is under way.
    pub closed spec fn spec_is_running(&self) -> bool {
        self.running
    }

    /// The guard of a callback that is not running.
    pub fn new() -> (guard: MutCallback)
        ensures
            !guard.is_running(),
    {
        MutCallback { running: false }
    }

    /// Whether an invocation of the callback is under way.
    #[verifier::when_used_as_spec(spec_is_running)]
    pub fn is_running(&self) -> (b: bool)
        ensures
            b == self.is_running(),
    {
        self.running
    }

    /// Decides an invocation at its entry. While an earlier invocation is
    /// under way the callback is not entered, and nothing changes; else the
    /// invocation is under way from now on.
    pub fn enter(&mut self) -> (result: Result<(), Error>)
        ensures
            result == (if old(self).is_running() {
                Err::<(), Error>(Error::RecursiveMutCallback)
            } else {
                Ok(())
            }),
            final(self).is_running(),
    {
        if self.running {
            Err(Error::recursive_mut_callback())
        } else {
            self.running = true;
            Ok(())
        }
    }

    /// Ends the invocation that `enter` admitted.
    pub fn exit(&mut self)
        ensures
            !final(self).is_running(),
    {
        self.running = false;
    }
}

} // verus!
