//! Runtime type descriptors.
//!
//! A [`Il2CppType`] describes a runtime type for matching purposes: either a
//! builtin primitive kind or a reference to a class, identified by namespace
//! and name. Capability predicates compare host types against these
//! descriptors before any value crosses the runtime boundary.

use vstd::prelude::*;

verus! {

/// A builtin primitive kind of the managed runtime.
#[derive(Clone, Copy, PartialEq, Eq, Structural, Debug)]
pub enum Builtin {
    Void,
    Bool,
    SByte,
    Byte,
    Short,
    UShort,
    Int,
    UInt,
    Long,
    ULong,
    Char,
    Str,
    Object,
}

/// A runtime type descriptor: a builtin primitive kind, or a class or struct
/// type identified by its namespace and name.
pub enum Il2CppType {
    Builtin(Builtin),
    Class { namespace: String, name: String },
}

impl Il2CppType {
    /// Whether the descriptor is exactly the given builtin kind.
    pub open spec fn is_builtin_spec(self, b: Builtin) -> bool {
        self matches Il2CppType::Builtin(k) && k == b
    }

    /// Whether the descriptor is exactly the given builtin kind.
    pub fn is_builtin(&self, b: Builtin) -> (r: bool)
        ensures
            r == self.is_builtin_spec(b),
    {
        match self {
            Il2CppType::Builtin(k) => *k == b,
            Il2CppType::Class { .. } => false,
        }
    }

    /// Whether the descriptor refers to a class rather than a builtin kind.
    pub open spec fn is_class_spec(self) -> bool {
        self matches Il2CppType::Class { .. }
    }

    /// Whether the descriptor refers to a class rather than a builtin kind.
    pub fn is_class(&self) -> (r: bool)
        ensures
            r == self.is_class_spec(),
    {
        match self {
            Il2CppType::Builtin(_) => false,
            Il2CppType::Class { .. } => true,
        }
    }
}

} // verus!
