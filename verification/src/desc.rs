//! Tagged value descriptors: the fixed shape in which one value crosses the
//! boundary, in either direction.

use vstd::prelude::*;
use crate::engine::MiniV8;

verus! {

/// The kind of value a descriptor carries.
#[derive(Clone, Copy, Debug, PartialEq, Eq, Structural)]
pub enum ValueDescTag {
    Null,
    Undefined,
    Number,
    Boolean,
    Array,
    Function,
    Date,
    Object,
    String,
}

impl ValueDescTag {
    /// Whether a descriptor with this tag carries a value handle, and with it
    /// one reference that has to be released.
    pub open spec fn holds_handle(self) -> bool {
        self is String || self is Array || self is Function || self is Object
    }

    /// Whether a descriptor with this tag carries a value handle.
    pub fn is_handle(&self) -> (b: bool)
        ensures
            b == self.holds_handle(),
    {
        match self {
            ValueDescTag::String
            | ValueDescTag::Array
            | ValueDescTag::Function
            | ValueDescTag::Object => true,
            _ => false,
        }
    }
}

/// One value in transit: a tag and a payload word.
///
/// The payload of `Boolean` is the inline byte (zero for false), that of
/// `Number` and `Date` the bits of an IEEE 754 double, that of a tag that
/// holds a handle the handle itself. `Null` and `Undefined` carry nothing.
#[derive(Debug, PartialEq, Eq)]
pub struct ValueDesc {
    pub tag: ValueDescTag,
    pub payload: u64,
}

impl ValueDesc {
    /// Puts a tag and a payload word together.
    pub fn new(tag: ValueDescTag, payload: u64) -> (desc: ValueDesc)
        ensures
            desc == (ValueDesc { tag, payload }),
    {
        ValueDesc { tag, payload }
    }

    /// The handle whose reference this descriptor owns, if its tag holds one.
    pub open spec fn owned_handle(self) -> Option<u64> {
        if self.tag.holds_handle() {
            Some(self.payload)
        } else {
            None
        }
    }

    /// Ends a descriptor that nothing has consumed. Where it owns a
    /// reference, the result is the handle that the engine must now be told to
    /// drop, once; an inline descriptor ends without a trace.
    pub fn release(self, mv8: &mut MiniV8) -> (value_ptr: Option<u64>)
        requires
            old(mv8)@.owns_desc(self),
        ensures
            value_ptr == self.owned_handle(),
            final(mv8)@ == old(mv8)@.release_desc(self),
    {
        match self.tag {
            ValueDescTag::String
            | ValueDescTag::Array
            | ValueDescTag::Function
            | ValueDescTag::Object => {
                mv8.strike(self.payload);
                Some(self.payload)
            },
            _ => None,
        }
    }
}

/// The uniform result of a boundary call that can fail: a descriptor, and a
/// flag byte that is nonzero when the descriptor is an exception that the
/// engine raised.
#[derive(Debug, PartialEq, Eq)]
pub struct TryCatchDesc {
    pub value_desc: ValueDesc,
    pub is_exception: u8,
}

impl TryCatchDesc {
    /// Whether the call ended in an exception.
    pub open spec fn spec_raised(&self) -> bool {
        self.is_exception != 0
    }

    /// Whether the call ended in an exception.
    #[verifier::when_used_as_spec(spec_raised)]
    pub fn raised(&self) -> (b: bool)
        ensures
            b == self.raised(),
    {
        self.is_exception != 0
    }
}

} // verus!
