//! Managed references: the host's ownership of one engine-owned value.

use vstd::prelude::*;
use crate::desc::ValueDesc;
use crate::engine::MiniV8;

verus! {

/// One owned reference to an engine-owned value.
///
/// A `Ref` cannot be copied. It comes into being when the engine hands out a
/// handle, and it ends in `release`, which yields the one call that gives the
/// reference back.
#[derive(Debug, PartialEq, Eq)]
pub struct Ref {
    pub(crate) interface: u64,
    pub(crate) value_ptr: u64,
}

impl Ref {
    /// The reference to `value_ptr` in the instance `interface`.
    pub open(crate) spec fn of(interface: u64, value_ptr: u64) -> Ref {
        Ref { interface, value_ptr }
    }

    /// The engine handle of the instance that the value lives in.
    pub open(crate) spec fn spec_interface(&self) -> u64 {
        self.interface
    }

    /// The value handle.
    pub open(crate) spec fn spec_value_ptr(&self) -> u64 {
        self.value_ptr
    }

    /// The engine handle of the instance that the value lives in.
    #[verifier::when_used_as_spec(spec_interface)]
    pub fn interface(&self) -> (interface: u64)
        ensures
            interface == self.interface(),
    {
        self.interface
    }

    /// The value handle.
    #[verifier::when_used_as_spec(spec_value_ptr)]
    pub fn value_ptr(&self) -> (value_ptr: u64)
        ensures
            value_ptr == self.value_ptr(),
    {
        self.value_ptr
    }

    /// Takes ownership of a handle that an engine call has newly produced.
    /// The engine has counted the reference already, so nothing is acquired.
    pub fn new(mv8: &mut MiniV8, value_ptr: u64) -> (r: Ref)
        ensures
            r == Ref::of(old(mv8)@.interface, value_ptr),
            final(mv8)@ == old(mv8)@.acquire(value_ptr),
    {
        mv8.record(value_ptr);
        Ref { interface: mv8.interface(), value_ptr }
    }

    /// Takes over the reference that a descriptor owns. The ledger does not
    /// change: the reference only changes hands on the host's side.
    pub fn from_value_desc(mv8: &MiniV8, desc: ValueDesc) -> (r: Ref)
        ensures
            r == Ref::of(mv8@.interface, desc.payload),
    {
        Ref { interface: mv8.interface(), value_ptr: desc.payload }
    }

    /// The second reference to the same value, once the engine has answered
    /// the acquire on `self.value_ptr()` with the handle `acquired`.
    pub fn clone_acquired(&self, mv8: &mut MiniV8, acquired: u64) -> (r: Ref)
        requires
            old(mv8)@.holds(*self),
        ensures
            r == Ref::of(self.interface(), acquired),
            final(mv8)@ == old(mv8)@.acquire(acquired),
    {
        mv8.record(acquired);
        Ref { interface: self.interface, value_ptr: acquired }
    }

    /// Ends the reference. The result is the handle that the engine must now
    /// be told to drop, once.
    pub fn release(self, mv8: &mut MiniV8) -> (value_ptr: u64)
        requires
            old(mv8)@.holds(self),
        ensures
            value_ptr == self.value_ptr(),
            final(mv8)@ == old(mv8)@.release(value_ptr),
    {
        mv8.strike(self.value_ptr);
        self.value_ptr
    }
}

} // verus!
