//! Script values as the host sees them.

use vstd::prelude::*;
use crate::desc::ValueDescTag;
use crate::engine::MiniV8;
use crate::handle::Ref;

verus! {

/// A script value on the host's side.
///
/// The first five variants are held inline. A number or a date is held as the
/// bits of its IEEE 754 double (a date counts milliseconds since the epoch),
/// so that it crosses the boundary unchanged, bit for bit. The other four
/// live in the engine's heap; the host owns one reference to each.
#[derive(Debug, PartialEq, Eq)]
pub enum Value {
    Undefined,
    Null,
    Boolean(bool),
    Number(u64),
    Date(u64),
    String(Ref),
    Array(Ref),
    Function(Ref),
    Object(Ref),
}

impl Value {
    /// The tag under which the value crosses the boundary.
    pub open spec fn spec_tag(&self) -> ValueDescTag {
        match self {
            Value::Undefined => ValueDescTag::Undefined,
            Value::Null => ValueDescTag::Null,
            Value::Boolean(_) => ValueDescTag::Boolean,
            Value::Number(_) => ValueDescTag::Number,
            Value::Date(_) => ValueDescTag::Date,
            Value::String(_) => ValueDescTag::String,
            Value::Array(_) => ValueDescTag::Array,
            Value::Function(_) => ValueDescTag::Function,
            Value::Object(_) => ValueDescTag::Object,
        }
    }

    /// The reference that the value owns, if it lives in the engine's heap.
    pub open spec fn spec_inner_ref(&self) -> Option<&Ref> {
        match self {
            Value::String(r) | Value::Array(r) | Value::Function(r) | Value::Object(r) => Some(r),
            _ => None,
        }
    }

    /// The handle whose reference the value owns, if it lives in the engine's
    /// heap.
    pub open spec fn owned_handle(&self) -> Option<u64> {
        match self.inner_ref() {
            Some(r) => Some(r.value_ptr()),
            None => None,
        }
    }

    /// The payload word of a value that is held inline.
    pub open spec fn inline_payload(&self) -> u64 {
        match self {
            Value::Boolean(b) => if *b { 1 } else { 0 },
            Value::Number(bits) | Value::Date(bits) => *bits,
            _ => 0,
        }
    }

    /// The name of the value's kind, as error texts give it.
    pub open spec fn spec_kind_name(&self) -> &'static str {
        match self {
            Value::Undefined => "undefined",
            Value::Null => "null",
            Value::Boolean(_) => "boolean",
            Value::Number(_) => "number",
            Value::Date(_) => "date",
            Value::String(_) => "string",
            Value::Array(_) => "array",
            Value::Function(_) => "function",
            Value::Object(_) => "object",
        }
    }

    /// The name of the value's kind, as error texts give it.
    #[verifier::when_used_as_spec(spec_kind_name)]
    pub fn kind_name(&self) -> (name: &'static str)
        ensures
            name@ == self.kind_name()@,
    {
        match self {
            Value::Undefined => "undefined",
            Value::Null => "null",
            Value::Boolean(_) => "boolean",
            Value::Number(_) => "number",
            Value::Date(_) => "date",
            Value::String(_) => "string",
            Value::Array(_) => "array",
            Value::Function(_) => "function",
            Value::Object(_) => "object",
        }
    }

    /// The tag under which the value crosses the boundary.
    #[verifier::when_used_as_spec(spec_tag)]
    pub fn tag(&self) -> (tag: ValueDescTag)
        ensures
            tag == self.tag(),
    {
        match self {
            Value::Undefined => ValueDescTag::Undefined,
            Value::Null => ValueDescTag::Null,
            Value::Boolean(_) => ValueDescTag::Boolean,
            Value::Number(_) => ValueDescTag::Number,
            Value::Date(_) => ValueDescTag::Date,
            Value::String(_) => ValueDescTag::String,
            Value::Array(_) => ValueDescTag::Array,
            Value::Function(_) => ValueDescTag::Function,
            Value::Object(_) => ValueDescTag::Object,
        }
    }

    /// The reference that the value owns, if it lives in the engine's heap.
    #[verifier::when_used_as_spec(spec_inner_ref)]
    pub fn inner_ref(&self) -> (r: Option<&Ref>)
        ensures
            r == self.inner_ref(),
    {
        match self {
            Value::String(r) | Value::Array(r) | Value::Function(r) | Value::Object(r) => Some(r),
            _ => None,
        }
    }

    /// Ends the value. Where it owns a reference, the result is the handle
    /// that the engine must now be told to drop, once.
    pub fn release(self, mv8: &mut MiniV8) -> (value_ptr: Option<u64>)
        requires
            old(mv8)@.holds_value(self),
        ensures
            value_ptr == self.owned_handle(),
            final(mv8)@ == old(mv8)@.release_value(self),
    {
        match self {
            Value::String(r) | Value::Array(r) | Value::Function(r) | Value::Object(r) => Some(
                r.release(mv8),
            ),
            _ => None,
        }
    }
}

} // verus!
