//! A value-marshaling bridge between a host program and an embedded script
//! engine that owns its own heap.
//!
//! The host never dereferences engine memory. It holds opaque handles, moves
//! values across the boundary as tagged descriptors, and keeps for each engine
//! instance a ledger of the references it still has to release. Every
//! operation here is a pure step of that protocol: it takes what the engine
//! handed back, updates the ledger, and returns what has to be handed to the
//! engine next.

pub mod desc;
pub mod ledger;
pub mod engine;
pub mod handle;
pub mod value;
pub mod convert;
pub mod error;
pub mod callback;
pub mod utf8;

pub use crate::callback::MutCallback;
pub use crate::convert::{
    desc_to_result, desc_to_result_noval, desc_to_result_val, desc_to_value, value_to_desc,
    Lowering,
};
pub use crate::desc::{TryCatchDesc, ValueDesc, ValueDescTag};
pub use crate::engine::MiniV8;
pub use crate::error::{Error, Thrown};
pub use crate::handle::Ref;
pub use crate::ledger::Ledger;
pub use crate::utf8::Utf8Value;
pub use crate::value::Value;
