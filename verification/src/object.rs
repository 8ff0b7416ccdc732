//! Live managed object instances.
//!
//! An [`Il2CppObject`] models a live instance as its field slots, each
//! holding a type-erased [`Value`]. The runtime owns real instances; the
//! model keeps exactly what field access reads and writes.

use vstd::prelude::*;

use crate::value::Value;

verus! {

/// A live managed instance: one type-erased value per field slot.
pub struct Il2CppObject {
    /// Field storage, indexed by each field's slot.
    pub fields: Vec<Value>,
}

/// A runtime-thrown managed exception, surfaced as the error channel of
/// invocation.
pub struct Il2CppException {
    /// Namespace-qualified name of the exception's class.
    pub class_name: String,
    /// The exception message.
    pub message: String,
}

} // verus!
