//! One engine instance as the host sees it: its handle, and the ledger of
//! references into its heap that the host still has to release.

use vstd::prelude::*;
use vstd::seq_lib::{to_multiset_build, to_multiset_contains, to_multiset_len, to_multiset_remove};
use crate::desc::{TryCatchDesc, ValueDesc, ValueDescTag};
use crate::handle::Ref;
use crate::ledger::{lemma_no_entries, Ledger};
use crate::value::Value;

verus! {

/// The host's record of one engine instance.
pub struct MiniV8 {
    interface: u64,
    refs: Vec<u64>,
    buffers: Vec<u64>,
}

impl View for MiniV8 {
    type V = Ledger;

    closed spec fn view(&self) -> Ledger {
        Ledger {
            interface: self.interface,
            refs: self.refs@.to_multiset(),
            buffers: self.buffers@.to_multiset(),
        }
    }
}

impl MiniV8 {
    /// The record of an instance that the engine has just created.
    pub fn new(interface: u64) -> (mv8: MiniV8)
        ensures
            mv8@ == Ledger::fresh(interface),
    {
        let mv8 = MiniV8 { interface, refs: Vec::new(), buffers: Vec::new() };
        proof {
            lemma_no_entries(mv8.refs@);
            lemma_no_entries(mv8.buffers@);
        }
        mv8
    }

    /// The instance's engine handle.
    pub fn interface(&self) -> (interface: u64)
        ensures
            interface == self@.interface,
    {
        self.interface
    }

    /// The number of references that the host still has to release.
    pub fn live(&self) -> (n: usize)
        ensures
            n == self@.refs.len(),
    {
        proof {
            to_multiset_len(self.refs@);
        }
        self.refs.len()
    }

    /// The number of references to `value_ptr` that the host owns.
    pub fn count(&self, value_ptr: u64) -> (n: usize)
        ensures
            n == self@.refs.count(value_ptr),
    {
        occurrences(&self.refs, value_ptr)
    }

    /// The number of transfer buffers that the host has open.
    pub fn open_buffers(&self) -> (n: usize)
        ensures
            n == self@.buffers.len(),
    {
        proof {
            to_multiset_len(self.buffers@);
        }
        self.buffers.len()
    }

    /// Whether the host has a transfer buffer open on the backing handle
    /// `src`.
    pub fn has_buffer(&self, src: u64) -> (b: bool)
        ensures
            b == self@.has_buffer(src),
    {
        occurrences(&self.buffers, src) > 0
    }

    /// Whether `r` is a reference into this instance that the host owns.
    pub fn holds(&self, r: &Ref) -> (b: bool)
        ensures
            b == self@.holds(*r),
    {
        r.interface() == self.interface && self.count(r.value_ptr()) > 0
    }

    /// Whether the host owns the reference that `desc` carries, if it carries
    /// one.
    pub fn owns_desc(&self, desc: &ValueDesc) -> (b: bool)
        ensures
            b == self@.owns_desc(*desc),
    {
        !desc.tag.is_handle() || self.count(desc.payload) > 0
    }

    /// Whether `value` may be passed to this instance.
    pub fn accepts(&self, value: &Value) -> (b: bool)
        ensures
            b == self@.accepts(*value),
    {
        match value.inner_ref() {
            Some(r) => r.interface() == self.interface,
            None => true,
        }
    }

    /// Whether the host owns the reference that `value` carries, if it
    /// carries one, as a reference into this instance.
    pub fn holds_value(&self, value: &Value) -> (b: bool)
        ensures
            b == self@.holds_value(*value),
    {
        match value.inner_ref() {
            Some(r) => self.holds(r),
            None => true,
        }
    }

    /// Takes into the host's ownership a descriptor that the engine has
    /// produced: the answer to an acquire, or a value that a call returned.
    pub fn receive(&mut self, tag: ValueDescTag, payload: u64) -> (desc: ValueDesc)
        ensures
            desc == (ValueDesc { tag, payload }),
            final(self)@ == old(self)@.acquire_desc(desc),
    {
        if tag.is_handle() {
            self.record(payload);
        }
        ValueDesc::new(tag, payload)
    }

    /// Takes into the host's ownership the result of a call that can fail.
    pub fn receive_result(&mut self, tag: ValueDescTag, payload: u64, is_exception: u8) -> (desc:
        TryCatchDesc)
        ensures
            desc == (TryCatchDesc { value_desc: ValueDesc { tag, payload }, is_exception }),
            final(self)@ == old(self)@.acquire_desc(desc.value_desc),
    {
        let value_desc = self.receive(tag, payload);
        TryCatchDesc { value_desc, is_exception }
    }

    /// Hands a descriptor over to the engine as the argument of a call. The
    /// reference that it may own is the engine's from then on: the host does
    /// not release it.
    pub fn send(&mut self, desc: ValueDesc) -> (wire: (ValueDescTag, u64))
        requires
            old(self)@.owns_desc(desc),
        ensures
            wire == (desc.tag, desc.payload),
            final(self)@ == old(self)@.release_desc(desc),
    {
        if desc.tag.is_handle() {
            self.strike(desc.payload);
        }
        (desc.tag, desc.payload)
    }

    /// Enters one reference to `value_ptr` into the ledger.
    pub(crate) fn record(&mut self, value_ptr: u64)
        ensures
            final(self)@ == old(self)@.acquire(value_ptr),
    {
        proof {
            to_multiset_build(self.refs@, value_ptr);
        }
        self.refs.push(value_ptr);
    }

    /// Strikes one reference to `value_ptr` from the ledger.
    pub(crate) fn strike(&mut self, value_ptr: u64)
        requires
            old(self)@.owns(value_ptr),
        ensures
            final(self)@ == old(self)@.release(value_ptr),
    {
        remove_one(&mut self.refs, value_ptr);
    }

    /// Enters one transfer buffer on `src` into the ledger.
    pub(crate) fn record_buffer(&mut self, src: u64)
        ensures
            final(self)@ == old(self)@.open_buffer(src),
    {
        proof {
            to_multiset_build(self.buffers@, src);
        }
        self.buffers.push(src);
    }

    /// Strikes one transfer buffer on `src` from the ledger.
    pub(crate) fn strike_buffer(&mut self, src: u64)
        requires
            old(self)@.has_buffer(src),
        ensures
            final(self)@ == old(self)@.close_buffer(src),
    {
        remove_one(&mut self.buffers, src);
    }
}

/// How often `handle` occurs among `entries`.
fn occurrences(entries: &Vec<u64>, handle: u64) -> (n: usize)
    ensures
        n == entries@.to_multiset().count(handle),
{
    let mut n: usize = 0;
    let mut i: usize = 0;
    proof {
        lemma_no_entries(entries@.take(0));
    }
    while i < entries.len()
        invariant
            i <= entries.len(),
            n <= i,
            n == entries@.take(i as int).to_multiset().count(handle),
        decreases entries.len() - i,
    {
        proof {
            to_multiset_build(entries@.take(i as int), entries@[i as int]);
            assert(entries@.take(i + 1) =~= entries@.take(i as int).push(entries@[i as int]));
        }
        if entries[i] == handle {
            n += 1;
        }
        i += 1;
    }
    proof {
        assert(entries@.take(i as int) =~= entries@);
    }
    n
}

/// Takes one occurrence of `handle` out of `entries`.
fn remove_one(entries: &mut Vec<u64>, handle: u64)
    requires
        old(entries)@.to_multiset().count(handle) > 0,
    ensures
        final(entries)@.to_multiset() == old(entries)@.to_multiset().remove(handle),
{
    let mut i: usize = 0;
    while i < entries.len()
        invariant
            i <= entries.len(),
            *entries == *old(entries),
            forall|j: int| 0 <= j < i ==> entries@[j] != handle,
        decreases entries.len() - i,
    {
        if entries[i] == handle {
            proof {
                to_multiset_remove(entries@, i as int);
            }
            entries.remove(i);
            return;
        }
        i += 1;
    }
    proof {
        to_multiset_contains(entries@, handle);
    }
}

} // verus!
