//! Method and parameter records.
//!
//! Read-only views over runtime-owned method metadata: a method's name,
//! staticness, ordered parameter list and return type descriptor.

use vstd::prelude::*;

use crate::ty::Il2CppType;

verus! {

/// A formal parameter of a managed method.
pub struct ParameterInfo {
    /// Parameter name; may be empty when the runtime carries none.
    pub name: String,
    /// Zero-based position in the parameter list.
    pub position: usize,
    /// Declared type of the parameter.
    pub ty: Il2CppType,
}

/// A managed method record: name, staticness, parameters and return type.
pub struct MethodInfo {
    /// Method name.
    pub name: String,
    /// Whether the method is static rather than an instance method.
    pub is_static: bool,
    /// Ordered formal parameters.
    pub parameters: Vec<ParameterInfo>,
    /// Return type descriptor.
    pub return_ty: Il2CppType,
}

impl MethodInfo {
    /// Name of the method.
    pub fn name(&self) -> (r: &str)
        ensures
            r@ == self.name@,
    {
        self.name.as_str()
    }

    /// The method's formal parameters.
    pub fn parameters(&self) -> (r: &Vec<ParameterInfo>)
        ensures
            r == &self.parameters,
    {
        &self.parameters
    }

    /// The method's return type descriptor.
    pub fn return_ty(&self) -> (r: &Il2CppType)
        ensures
            r == &self.return_ty,
    {
        &self.return_ty
    }
}

} // verus!
