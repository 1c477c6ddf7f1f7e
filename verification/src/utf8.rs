//! The string transfer buffer: a read-only view of a string's bytes that the
//! engine lends to the host, and that has to go back to it.

use vstd::prelude::*;
use crate::engine::MiniV8;

verus! {

/// One transfer buffer that the engine has lent: the address of its bytes,
/// their number as the engine states it, and the backing handle under which
/// the engine takes the buffer back.
///
/// The bytes span the whole string. They may be read until `release`; the
/// host copies them out before that.
#[derive(Debug, PartialEq, Eq)]
pub struct Utf8Value {
    pub(crate) data: u64,
    pub(crate) length: i32,
    pub(crate) src: u64,
}

impl Utf8Value {
    /// The buffer with these three parts.
    pub open(crate) spec fn of(data: u64, length: i32, src: u64) -> Utf8Value {
        Utf8Value { data, length, src }
    }

    /// The address of the first byte.
    pub open(crate) spec fn spec_data(&self) -> u64 {
        self.data
    }

    /// The backing handle.
    pub open(crate) spec fn spec_src(&self) -> u64 {
        self.src
    }

    /// The number of bytes that may be read: what the engine stated, or
    /// nothing where it stated a negative length or gave no address.
    pub open(crate) spec fn spec_len(&self) -> usize {
        if self.data == 0 || self.length < 0 {
            0
        } else {
            self.length as usize
        }
    }

    /// Takes into the ledger a buffer that the engine has just lent.
    pub fn new(mv8: &mut MiniV8, data: u64, length: i32, src: u64) -> (buffer: Utf8Value)
        ensures
            buffer == Utf8Value::of(data, length, src),
            final(mv8)@ == old(mv8)@.open_buffer(src),
    {
        mv8.record_buffer(src);
        Utf8Value { data, length, src }
    }

    /// The address of the first byte.
    #[verifier::when_used_as_spec(spec_data)]
    pub fn data(&self) -> (data: u64)
        ensures
            data == self.data(),
    {
        self.data
    }

    /// The backing handle.
    #[verifier::when_used_as_spec(spec_src)]
    pub fn src(&self) -> (src: u64)
        ensures
            src == self.src(),
    {
        self.src
    }

    /// The number of bytes that may be read.
    #[verifier::when_used_as_spec(spec_len)]
    pub fn len(&self) -> (n: usize)
        ensures
            n == self.len(),
    {
        if self.data == 0 || self.length < 0 {
            0
        } else {
            self.length as usize
        }
    }

    /// Ends the loan. The result is the backing handle under which the
    /// engine must now be told to take the buffer back, once.
    pub fn release(self, mv8: &mut MiniV8) -> (src: u64)
        requires
            old(mv8)@.has_buffer(self.src()),
        ensures
            src == self.src(),
            final(mv8)@ == old(mv8)@.close_buffer(src),
    {
        mv8.strike_buffer(self.src);
        self.src
    }
}

} // verus!
