//! The conversion surface: lowering a `Value` to a descriptor, lifting a
//! descriptor to a `Value`, and taking a call's result apart.

use vstd::prelude::*;
use crate::desc::{TryCatchDesc, ValueDesc, ValueDescTag};
use crate::engine::MiniV8;
use crate::error::Error;
use crate::handle::Ref;
use crate::ledger::Ledger;
use crate::value::Value;

verus! {

/// How a value gets its descriptor.
#[derive(Debug, PartialEq, Eq)]
pub enum Lowering {
    /// The value is held inline: this is its descriptor.
    Done(ValueDesc),
    /// The value lives in the engine's heap. The engine has to acquire
    /// `value_ptr`; the handle it answers with, received under `tag`, is the
    /// descriptor.
    Acquire { tag: ValueDescTag, value_ptr: u64 },
}

/// How `value` gets its descriptor.
pub open spec fn lowering(value: Value) -> Lowering {
    match value.inner_ref() {
        Some(r) => Lowering::Acquire { tag: value.tag(), value_ptr: r.value_ptr() },
        None => Lowering::Done(ValueDesc { tag: value.tag(), payload: value.inline_payload() }),
    }
}

/// The descriptor of `value`, where `acquired` is the handle with which the
/// engine answers an acquire on the value's own.
pub open spec fn lowered(value: Value, acquired: u64) -> ValueDesc {
    match lowering(value) {
        Lowering::Done(desc) => desc,
        Lowering::Acquire { tag, value_ptr } => ValueDesc { tag, payload: acquired },
    }
}

/// The value that a descriptor stands for in the instance `interface`.
pub open spec fn lifted(interface: u64, desc: ValueDesc) -> Value {
    match desc.tag {
        ValueDescTag::Null => Value::Null,
        ValueDescTag::Undefined => Value::Undefined,
        ValueDescTag::Boolean => Value::Boolean(desc.payload != 0),
        ValueDescTag::Number => Value::Number(desc.payload),
        ValueDescTag::Date => Value::Date(desc.payload),
        ValueDescTag::Array => Value::Array(Ref::of(interface, desc.payload)),
        ValueDescTag::Function => Value::Function(Ref::of(interface, desc.payload)),
        ValueDescTag::Object => Value::Object(Ref::of(interface, desc.payload)),
        ValueDescTag::String => Value::String(Ref::of(interface, desc.payload)),
    }
}

/// Lowers a value for a call into `mv8`.
///
/// A value that is held inline is copied into its descriptor. For one that
/// lives in the engine's heap the descriptor is a second reference, which the
/// engine has to acquire first; the value itself is left as it was.
pub fn value_to_desc(mv8: &MiniV8, value: &Value) -> (step: Lowering)
    requires
        mv8@.accepts(*value),
    ensures
        step == lowering(*value),
{
    match value {
        Value::Undefined => Lowering::Done(ValueDesc::new(ValueDescTag::Undefined, 0)),
        Value::Null => Lowering::Done(ValueDesc::new(ValueDescTag::Null, 0)),
        Value::Boolean(b) => {
            let byte: u64 = if *b { 1 } else { 0 };
            Lowering::Done(ValueDesc::new(ValueDescTag::Boolean, byte))
        },
        Value::Number(bits) => Lowering::Done(ValueDesc::new(ValueDescTag::Number, *bits)),
        Value::Date(bits) => Lowering::Done(ValueDesc::new(ValueDescTag::Date, *bits)),
        Value::Array(r) => Lowering::Acquire { tag: ValueDescTag::Array, value_ptr: r.value_ptr() },
        Value::Function(r) => Lowering::Acquire {
            tag: ValueDescTag::Function,
            value_ptr: r.value_ptr(),
        },
        Value::Object(r) => Lowering::Acquire {
            tag: ValueDescTag::Object,
            value_ptr: r.value_ptr(),
        },
        Value::String(r) => Lowering::Acquire {
            tag: ValueDescTag::String,
            value_ptr: r.value_ptr(),
        },
    }
}

/// Lifts a descriptor into a `Value` of `mv8`.
///
/// An inline payload is copied. A handle passes into the value as it is: the
/// descriptor owned one reference, the value owns it from now on, and the
/// ledger does not change.
pub fn desc_to_value(mv8: &MiniV8, desc: ValueDesc) -> (value: Value)
    ensures
        value == lifted(mv8@.interface, desc),
{
    match desc.tag {
        ValueDescTag::Null => Value::Null,
        ValueDescTag::Undefined => Value::Undefined,
        ValueDescTag::Boolean => Value::Boolean(desc.payload != 0),
        ValueDescTag::Number => Value::Number(desc.payload),
        ValueDescTag::Date => Value::Date(desc.payload),
        ValueDescTag::Array => Value::Array(Ref::from_value_desc(mv8, desc)),
        ValueDescTag::Function => Value::Function(Ref::from_value_desc(mv8, desc)),
        ValueDescTag::Object => Value::Object(Ref::from_value_desc(mv8, desc)),
        ValueDescTag::String => Value::String(Ref::from_value_desc(mv8, desc)),
    }
}

/// Takes a call's result apart into a `Value`: the lifted descriptor, as the
/// success where no exception was raised and as `Error::Value` where one was.
pub fn desc_to_result(mv8: &MiniV8, desc: TryCatchDesc) -> (result: Result<Value, Error>)
    ensures
        result == (if desc.raised() {
            Err::<Value, Error>(Error::Value(lifted(mv8@.interface, desc.value_desc)))
        } else {
            Ok(lifted(mv8@.interface, desc.value_desc))
        }),
{
    let raised = desc.raised();
    let value = desc_to_value(mv8, desc.value_desc);
    if raised {
        Err(Error::Value(value))
    } else {
        Ok(value)
    }
}

/// Takes apart the result of a call whose success carries nothing of use.
///
/// An exception is lifted and returned as `Error::Value`. A success is
/// discarded, and the reference that it may own goes with it: the handle under
/// `Ok` is the one that the engine must now be told to drop.
pub fn desc_to_result_noval(mv8: &mut MiniV8, desc: TryCatchDesc) -> (result: Result<
    Option<u64>,
    Error,
>)
    requires
        !desc.raised() ==> old(mv8)@.owns_desc(desc.value_desc),
    ensures
        result == (if desc.raised() {
            Err::<Option<u64>, Error>(Error::Value(lifted(old(mv8)@.interface, desc.value_desc)))
        } else {
            Ok(desc.value_desc.owned_handle())
        }),
        final(mv8)@ == (if desc.raised() {
            old(mv8)@
        } else {
            old(mv8)@.release_desc(desc.value_desc)
        }),
{
    if desc.raised() {
        Err(Error::Value(desc_to_value(mv8, desc.value_desc)))
    } else {
        Ok(desc.value_desc.release(mv8))
    }
}

/// Takes a call's result apart but keeps a success as a descriptor, to be
/// passed on into another call. An exception is lifted and returned as
/// `Error::Value`.
pub fn desc_to_result_val(mv8: &MiniV8, desc: TryCatchDesc) -> (result: Result<ValueDesc, Error>)
    ensures
        result == (if desc.raised() {
            Err::<ValueDesc, Error>(Error::Value(lifted(mv8@.interface, desc.value_desc)))
        } else {
            Ok(desc.value_desc)
        }),
{
    let raised = desc.raised();
    let desc = desc.value_desc;
    if raised {
        Err(Error::Value(desc_to_value(mv8, desc)))
    } else {
        Ok(desc)
    }
}

/// A value that is held inline survives the round trip: it lowers without
/// any call into the engine, and its descriptor lifts to the same value, in
/// whatever instance.
pub proof fn lemma_inline_round_trip(interface: u64, value: Value, acquired: u64)
    requires
        value.inner_ref() is None,
    ensures
        lowering(value) == Lowering::Done(lowered(value, acquired)),
        lowered(value, acquired).owned_handle() is None,
        lifted(interface, lowered(value, acquired)) == value,
{
}

/// Lifting moves ownership and nothing else. The value owns what the
/// descriptor owned, the host holds the one exactly when it owned the other,
/// and to end the value is to end the descriptor: the same handle is released
/// and the same ledger is left.
pub proof fn lemma_lifting_moves_ownership(ledger: Ledger, desc: ValueDesc)
    ensures
        lifted(ledger.interface, desc).tag() == desc.tag,
        lifted(ledger.interface, desc).owned_handle() == desc.owned_handle(),
        ledger.holds_value(lifted(ledger.interface, desc)) == ledger.owns_desc(desc),
        ledger.release_value(lifted(ledger.interface, desc)) == ledger.release_desc(desc),
{
}

/// Lowering a value that lives in the engine's heap makes a second reference
/// and leaves the first alone: once the acquired descriptor is received, the
/// host owns exactly one reference more, still holds the value, and the
/// descriptor lifts to a value of the same kind that owns the new reference.
pub proof fn lemma_lowering_adds_one_reference(ledger: Ledger, value: Value, acquired: u64)
    requires
        value.inner_ref() is Some,
        ledger.holds_value(value),
    ensures
        ledger.accepts(value),
        lowering(value) == (Lowering::Acquire {
            tag: value.tag(),
            value_ptr: value.inner_ref().unwrap().value_ptr(),
        }),
        ledger.acquire_desc(lowered(value, acquired)) == ledger.acquire(acquired),
        ledger.acquire(acquired).refs.len() == ledger.refs.len() + 1,
        ledger.acquire(acquired).holds_value(value),
        ledger.acquire(acquired).owns_desc(lowered(value, acquired)),
        lifted(ledger.interface, lowered(value, acquired)).tag() == value.tag(),
        lifted(ledger.interface, lowered(value, acquired)).inner_ref() == Some(
            &Ref::of(ledger.interface, acquired),
        ),
{
}

} // verus!
