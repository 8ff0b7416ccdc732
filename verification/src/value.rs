//! The runtime's type-erased value representation.
//!
//! Invocation and field access move data across the runtime boundary as
//! [`Value`]s: a tagged union mirroring the builtin kinds, with object
//! references carried as opaque, possibly null handles. [`value_fits`] states
//! when a value's tag agrees with a type descriptor; it is the layer that
//! links capability matching to the conversions on either side of a call.

use vstd::prelude::*;

use crate::ty::{Builtin, Il2CppType};

verus! {

/// A type-erased runtime value.
///
/// Object references are opaque handles owned by the runtime; `Obj(None)` is
/// a null reference.
pub enum Value {
    Void,
    Bool(bool),
    SByte(i8),
    Byte(u8),
    Short(i16),
    UShort(u16),
    Int(i32),
    UInt(u32),
    Long(i64),
    ULong(u64),
    Char(char),
    Str(String),
    Obj(Option<u64>),
}

/// Whether a value's tag agrees with a builtin kind.
pub open spec fn builtin_fits(v: Value, b: Builtin) -> bool {
    match b {
        Builtin::Void => v is Void,
        Builtin::Bool => v is Bool,
        Builtin::SByte => v is SByte,
        Builtin::Byte => v is Byte,
        Builtin::Short => v is Short,
        Builtin::UShort => v is UShort,
        Builtin::Int => v is Int,
        Builtin::UInt => v is UInt,
        Builtin::Long => v is Long,
        Builtin::ULong => v is ULong,
        Builtin::Char => v is Char,
        Builtin::Str => v is Str,
        Builtin::Object => v is Obj,
    }
}

/// Whether a value's tag agrees with a type descriptor: builtin kinds demand
/// the matching tag, and any class type holds an object reference.
pub open spec fn value_fits(v: Value, ty: Il2CppType) -> bool {
    match ty {
        Il2CppType::Builtin(b) => builtin_fits(v, b),
        Il2CppType::Class { .. } => v is Obj,
    }
}

impl Value {
    /// Runtime check that the value's tag agrees with a type descriptor.
    pub fn fits(&self, ty: &Il2CppType) -> (r: bool)
        ensures
            r == value_fits(*self, *ty),
    {
        match ty {
            Il2CppType::Builtin(b) => match b {
                Builtin::Void => matches!(self, Value::Void),
                Builtin::Bool => matches!(self, Value::Bool(_)),
                Builtin::SByte => matches!(self, Value::SByte(_)),
                Builtin::Byte => matches!(self, Value::Byte(_)),
                Builtin::Short => matches!(self, Value::Short(_)),
                Builtin::UShort => matches!(self, Value::UShort(_)),
                Builtin::Int => matches!(self, Value::Int(_)),
                Builtin::UInt => matches!(self, Value::UInt(_)),
                Builtin::Long => matches!(self, Value::Long(_)),
                Builtin::ULong => matches!(self, Value::ULong(_)),
                Builtin::Char => matches!(self, Value::Char(_)),
                Builtin::Str => matches!(self, Value::Str(_)),
                Builtin::Object => matches!(self, Value::Obj(_)),
            },
            Il2CppType::Class { .. } => matches!(self, Value::Obj(_)),
        }
    }
}

} // verus!
