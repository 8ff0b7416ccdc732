//! Type capability roles.
//!
//! A host type takes part in the bridge through capability traits:
//! [`Type`] gives the bidirectional conversion between the host
//! representation and the runtime's type-erased [`Value`]; [`Parameter`] and
//! [`Return`] add the compatibility predicate against a runtime type
//! descriptor for the two directions of a call; [`ThisParameter`] decides
//! whether the host type may serve as a method receiver; [`Parameters`]
//! lifts parameter matching and marshalling to whole argument lists.
//!
//! Every predicate is pure, and each impl proves the laws that the
//! invocation and field layers lean on: matching guarantees that conversion
//! succeeds, and conversion round-trips.

use vstd::prelude::*;

use crate::method_info::{MethodInfo, ParameterInfo};
use crate::object::Il2CppObject;
use crate::ty::{Builtin, Il2CppType};
use crate::value::{value_fits, Value};

verus! {

/// Bidirectional conversion between a host type and the runtime's
/// type-erased value representation.
pub trait Type: Sized {
    /// The runtime representation of this host value.
    spec fn to_value(self) -> Value;

    /// The host value a runtime value decodes to, if its tag agrees.
    spec fn of_value(v: Value) -> Option<Self>;

    /// Convert the host value into its runtime representation.
    fn into_value(self) -> (v: Value)
        ensures
            v == self.to_value(),
    ;

    /// Decode a runtime value, failing on a foreign tag.
    fn from_value(v: &Value) -> (r: Option<Self>)
        ensures
            r == Self::of_value(*v),
    ;

    /// Law: decoding an encoded value yields the value again.
    proof fn round_trip(self)
        ensures
            Self::of_value(self.to_value()) == Some(self),
    ;
}

/// Capability of a host type to stand as a method parameter or field value
/// of a given runtime type.
pub trait Parameter: Type {
    /// Structural compatibility with a runtime type descriptor.
    spec fn matches_spec(ty: Il2CppType) -> bool;

    /// Runtime check of [`Parameter::matches_spec`].
    fn matches(ty: &Il2CppType) -> (r: bool)
        ensures
            r == Self::matches_spec(*ty),
    ;

    /// Law: a value of a matching host type encodes to a runtime value whose
    /// tag agrees with the descriptor.
    proof fn value_fits_ty(self, ty: Il2CppType)
        requires
            Self::matches_spec(ty),
        ensures
            value_fits(self.to_value(), ty),
    ;
}

/// Capability of a host type to receive a value of a given runtime type,
/// as a method's return value or a field's content.
pub trait Return: Type {
    /// Structural compatibility with a runtime type descriptor.
    spec fn matches_spec(ty: Il2CppType) -> bool;

    /// Runtime check of [`Return::matches_spec`].
    fn matches(ty: &Il2CppType) -> (r: bool)
        ensures
            r == Self::matches_spec(*ty),
    ;

    /// Law: any runtime value whose tag agrees with a matching descriptor
    /// decodes successfully. This ties the compatibility check to the
    /// conversion behind it.
    proof fn fit_value_decodes(ty: Il2CppType, v: Value)
        requires
            Self::matches_spec(ty),
            value_fits(v, ty),
        ensures
            Self::of_value(v) is Some,
    ;
}

/// Capability of a host type to serve as the receiver of a managed method.
///
/// The runtime hands receivers around as possibly null object references;
/// `()` stands for the absent receiver of a static call.
pub trait ThisParameter: Sized {
    /// Whether this host type may serve as the receiver of the method.
    spec fn matches_spec(m: MethodInfo) -> bool;

    /// The receiver reference this host value passes to the runtime.
    spec fn to_receiver(self) -> Option<Il2CppObject>;

    /// The host value a receiver reference decodes to, if it may.
    spec fn of_receiver(r: Option<Il2CppObject>) -> Option<Self>;

    /// Runtime check of [`ThisParameter::matches_spec`].
    fn matches(m: &MethodInfo) -> (r: bool)
        ensures
            r == Self::matches_spec(*m),
    ;

    /// Convert the host receiver into the runtime's representation.
    fn into_actual(self) -> (r: Option<Il2CppObject>)
        ensures
            r == self.to_receiver(),
    ;

    /// Decode the runtime's receiver representation.
    fn from_actual(r: Option<Il2CppObject>) -> (s: Option<Self>)
        ensures
            s == Self::of_receiver(r),
    ;
}

/// Capability of a host type to stand for a whole parameter list.
pub trait Parameters: Sized {
    /// Structural compatibility with a method's formal parameter list.
    spec fn matches_spec(params: Seq<ParameterInfo>) -> bool;

    /// The runtime representations of the argument values, in order.
    spec fn to_values(self) -> Seq<Value>;

    /// Runtime check of [`Parameters::matches_spec`].
    fn matches(params: &Vec<ParameterInfo>) -> (r: bool)
        ensures
            r == Self::matches_spec(params@),
    ;

    /// Marshal the arguments into their runtime representations.
    fn into_actual(self) -> (v: Vec<Value>)
        ensures
            v@ == self.to_values(),
    ;
}

/// Law: converting any host value to the runtime representation and back
/// yields the value stored, whatever the capability-supporting host type.
pub proof fn lemma_value_round_trip<T: Type>(x: T)
    ensures
        T::of_value(x.to_value()) == Some(x),
{
    x.round_trip();
}

impl Type for bool {
    open spec fn to_value(self) -> Value {
        Value::Bool(self)
    }

    open spec fn of_value(v: Value) -> Option<bool> {
        match v {
            Value::Bool(b) => Some(b),
            _ => None,
        }
    }

    fn into_value(self) -> Value {
        Value::Bool(self)
    }

    fn from_value(v: &Value) -> Option<bool> {
        match v {
            Value::Bool(b) => Some(*b),
            _ => None,
        }
    }

    proof fn round_trip(self) {
    }
}

impl Parameter for bool {
    open spec fn matches_spec(ty: Il2CppType) -> bool {
        ty.is_builtin_spec(Builtin::Bool)
    }

    fn matches(ty: &Il2CppType) -> bool {
        ty.is_builtin(Builtin::Bool)
    }

    proof fn value_fits_ty(self, ty: Il2CppType) {
    }
}

impl Return for bool {
    open spec fn matches_spec(ty: Il2CppType) -> bool {
        ty.is_builtin_spec(Builtin::Bool)
    }

    fn matches(ty: &Il2CppType) -> bool {
        ty.is_builtin(Builtin::Bool)
    }

    proof fn fit_value_decodes(ty: Il2CppType, v: Value) {
    }
}

impl Type for u8 {
    open spec fn to_value(self) -> Value {
        Value::Byte(self)
    }

    open spec fn of_value(v: Value) -> Option<u8> {
        match v {
            Value::Byte(x) => Some(x),
            _ => None,
        }
    }

    fn into_value(self) -> Value {
        Value::Byte(self)
    }

    fn from_value(v: &Value) -> Option<u8> {
        match v {
            Value::Byte(x) => Some(*x),
            _ => None,
        }
    }

    proof fn round_trip(self) {
    }
}

impl Parameter for u8 {
    open spec fn matches_spec(ty: Il2CppType) -> bool {
        ty.is_builtin_spec(Builtin::Byte)
    }

    fn matches(ty: &Il2CppType) -> bool {
        ty.is_builtin(Builtin::Byte)
    }

    proof fn value_fits_ty(self, ty: Il2CppType) {
    }
}

impl Return for u8 {
    open spec fn matches_spec(ty: Il2CppType) -> bool {
        ty.is_builtin_spec(Builtin::Byte)
    }

    fn matches(ty: &Il2CppType) -> bool {
        ty.is_builtin(Builtin::Byte)
    }

    proof fn fit_value_decodes(ty: Il2CppType, v: Value) {
    }
}

impl Type for i32 {
    open spec fn to_value(self) -> Value {
        Value::Int(self)
    }

    open spec fn of_value(v: Value) -> Option<i32> {
        match v {
            Value::Int(x) => Some(x),
            _ => None,
        }
    }

    fn into_value(self) -> Value {
        Value::Int(self)
    }

    fn from_value(v: &Value) -> Option<i32> {
        match v {
            Value::Int(x) => Some(*x),
            _ => None,
        }
    }

    proof fn round_trip(self) {
    }
}

impl Parameter for i32 {
    open spec fn matches_spec(ty: Il2CppType) -> bool {
        ty.is_builtin_spec(Builtin::Int)
    }

    fn matches(ty: &Il2CppType) -> bool {
        ty.is_builtin(Builtin::Int)
    }

    proof fn value_fits_ty(self, ty: Il2CppType) {
    }
}

impl Return for i32 {
    open spec fn matches_spec(ty: Il2CppType) -> bool {
        ty.is_builtin_spec(Builtin::Int)
    }

    fn matches(ty: &Il2CppType) -> bool {
        ty.is_builtin(Builtin::Int)
    }

    proof fn fit_value_decodes(ty: Il2CppType, v: Value) {
    }
}

impl Type for i64 {
    open spec fn to_value(self) -> Value {
        Value::Long(self)
    }

    open spec fn of_value(v: Value) -> Option<i64> {
        match v {
            Value::Long(x) => Some(x),
            _ => None,
        }
    }

    fn into_value(self) -> Value {
        Value::Long(self)
    }

    fn from_value(v: &Value) -> Option<i64> {
        match v {
            Value::Long(x) => Some(*x),
            _ => None,
        }
    }

    proof fn round_trip(self) {
    }
}

impl Parameter for i64 {
    open spec fn matches_spec(ty: Il2CppType) -> bool {
        ty.is_builtin_spec(Builtin::Long)
    }

    fn matches(ty: &Il2CppType) -> bool {
        ty.is_builtin(Builtin::Long)
    }

    proof fn value_fits_ty(self, ty: Il2CppType) {
    }
}

impl Return for i64 {
    open spec fn matches_spec(ty: Il2CppType) -> bool {
        ty.is_builtin_spec(Builtin::Long)
    }

    fn matches(ty: &Il2CppType) -> bool {
        ty.is_builtin(Builtin::Long)
    }

    proof fn fit_value_decodes(ty: Il2CppType, v: Value) {
    }
}

impl Type for i8 {
    open spec fn to_value(self) -> Value {
        Value::SByte(self)
    }

    open spec fn of_value(v: Value) -> Option<i8> {
        match v {
            Value::SByte(x) => Some(x),
            _ => None,
        }
    }

    fn into_value(self) -> Value {
        Value::SByte(self)
    }

    fn from_value(v: &Value) -> Option<i8> {
        match v {
            Value::SByte(x) => Some(*x),
            _ => None,
        }
    }

    proof fn round_trip(self) {
    }
}

impl Parameter for i8 {
    open spec fn matches_spec(ty: Il2CppType) -> bool {
        ty.is_builtin_spec(Builtin::SByte)
    }

    fn matches(ty: &Il2CppType) -> bool {
        ty.is_builtin(Builtin::SByte)
    }

    proof fn value_fits_ty(self, ty: Il2CppType) {
    }
}

impl Return for i8 {
    open spec fn matches_spec(ty: Il2CppType) -> bool {
        ty.is_builtin_spec(Builtin::SByte)
    }

    fn matches(ty: &Il2CppType) -> bool {
        ty.is_builtin(Builtin::SByte)
    }

    proof fn fit_value_decodes(ty: Il2CppType, v: Value) {
    }
}

impl Type for i16 {
    open spec fn to_value(self) -> Value {
        Value::Short(self)
    }

    open spec fn of_value(v: Value) -> Option<i16> {
        match v {
            Value::Short(x) => Some(x),
            _ => None,
        }
    }

    fn into_value(self) -> Value {
        Value::Short(self)
    }

    fn from_value(v: &Value) -> Option<i16> {
        match v {
            Value::Short(x) => Some(*x),
            _ => None,
        }
    }

    proof fn round_trip(self) {
    }
}

impl Parameter for i16 {
    open spec fn matches_spec(ty: Il2CppType) -> bool {
        ty.is_builtin_spec(Builtin::Short)
    }

    fn matches(ty: &Il2CppType) -> bool {
        ty.is_builtin(Builtin::Short)
    }

    proof fn value_fits_ty(self, ty: Il2CppType) {
    }
}

impl Return for i16 {
    open spec fn matches_spec(ty: Il2CppType) -> bool {
        ty.is_builtin_spec(Builtin::Short)
    }

    fn matches(ty: &Il2CppType) -> bool {
        ty.is_builtin(Builtin::Short)
    }

    proof fn fit_value_decodes(ty: Il2CppType, v: Value) {
    }
}

impl Type for u16 {
    open spec fn to_value(self) -> Value {
        Value::UShort(self)
    }

    open spec fn of_value(v: Value) -> Option<u16> {
        match v {
            Value::UShort(x) => Some(x),
            _ => None,
        }
    }

    fn into_value(self) -> Value {
        Value::UShort(self)
    }

    fn from_value(v: &Value) -> Option<u16> {
        match v {
            Value::UShort(x) => Some(*x),
            _ => None,
        }
    }

    proof fn round_trip(self) {
    }
}

impl Parameter for u16 {
    open spec fn matches_spec(ty: Il2CppType) -> bool {
        ty.is_builtin_spec(Builtin::UShort)
    }

    fn matches(ty: &Il2CppType) -> bool {
        ty.is_builtin(Builtin::UShort)
    }

    proof fn value_fits_ty(self, ty: Il2CppType) {
    }
}

impl Return for u16 {
    open spec fn matches_spec(ty: Il2CppType) -> bool {
        ty.is_builtin_spec(Builtin::UShort)
    }

    fn matches(ty: &Il2CppType) -> bool {
        ty.is_builtin(Builtin::UShort)
    }

    proof fn fit_value_decodes(ty: Il2CppType, v: Value) {
    }
}

impl Type for u32 {
    open spec fn to_value(self) -> Value {
        Value::UInt(self)
    }

    open spec fn of_value(v: Value) -> Option<u32> {
        match v {
            Value::UInt(x) => Some(x),
            _ => None,
        }
    }

    fn into_value(self) -> Value {
        Value::UInt(self)
    }

    fn from_value(v: &Value) -> Option<u32> {
        match v {
            Value::UInt(x) => Some(*x),
            _ => None,
        }
    }

    proof fn round_trip(self) {
    }
}

impl Parameter for u32 {
    open spec fn matches_spec(ty: Il2CppType) -> bool {
        ty.is_builtin_spec(Builtin::UInt)
    }

    fn matches(ty: &Il2CppType) -> bool {
        ty.is_builtin(Builtin::UInt)
    }

    proof fn value_fits_ty(self, ty: Il2CppType) {
    }
}

impl Return for u32 {
    open spec fn matches_spec(ty: Il2CppType) -> bool {
        ty.is_builtin_spec(Builtin::UInt)
    }

    fn matches(ty: &Il2CppType) -> bool {
        ty.is_builtin(Builtin::UInt)
    }

    proof fn fit_value_decodes(ty: Il2CppType, v: Value) {
    }
}

impl Type for char {
    open spec fn to_value(self) -> Value {
        Value::Char(self)
    }

    open spec fn of_value(v: Value) -> Option<char> {
        match v {
            Value::Char(x) => Some(x),
            _ => None,
        }
    }

    fn into_value(self) -> Value {
        Value::Char(self)
    }

    fn from_value(v: &Value) -> Option<char> {
        match v {
            Value::Char(x) => Some(*x),
            _ => None,
        }
    }

    proof fn round_trip(self) {
    }
}

impl Parameter for char {
    open spec fn matches_spec(ty: Il2CppType) -> bool {
        ty.is_builtin_spec(Builtin::Char)
    }

    fn matches(ty: &Il2CppType) -> bool {
        ty.is_builtin(Builtin::Char)
    }

    proof fn value_fits_ty(self, ty: Il2CppType) {
    }
}

impl Return for char {
    open spec fn matches_spec(ty: Il2CppType) -> bool {
        ty.is_builtin_spec(Builtin::Char)
    }

    fn matches(ty: &Il2CppType) -> bool {
        ty.is_builtin(Builtin::Char)
    }

    proof fn fit_value_decodes(ty: Il2CppType, v: Value) {
    }
}

impl Type for u64 {
    open spec fn to_value(self) -> Value {
        Value::ULong(self)
    }

    open spec fn of_value(v: Value) -> Option<u64> {
        match v {
            Value::ULong(x) => Some(x),
            _ => None,
        }
    }

    fn into_value(self) -> Value {
        Value::ULong(self)
    }

    fn from_value(v: &Value) -> Option<u64> {
        match v {
            Value::ULong(x) => Some(*x),
            _ => None,
        }
    }

    proof fn round_trip(self) {
    }
}

impl Parameter for u64 {
    open spec fn matches_spec(ty: Il2CppType) -> bool {
        ty.is_builtin_spec(Builtin::ULong)
    }

    fn matches(ty: &Il2CppType) -> bool {
        ty.is_builtin(Builtin::ULong)
    }

    proof fn value_fits_ty(self, ty: Il2CppType) {
    }
}

impl Return for u64 {
    open spec fn matches_spec(ty: Il2CppType) -> bool {
        ty.is_builtin_spec(Builtin::ULong)
    }

    fn matches(ty: &Il2CppType) -> bool {
        ty.is_builtin(Builtin::ULong)
    }

    proof fn fit_value_decodes(ty: Il2CppType, v: Value) {
    }
}

impl Type for String {
    open spec fn to_value(self) -> Value {
        Value::Str(self)
    }

    open spec fn of_value(v: Value) -> Option<String> {
        match v {
            Value::Str(s) => Some(s),
            _ => None,
        }
    }

    fn into_value(self) -> Value {
        Value::Str(self)
    }

    fn from_value(v: &Value) -> Option<String> {
        match v {
            Value::Str(s) => Some(s.clone()),
            _ => None,
        }
    }

    proof fn round_trip(self) {
    }
}

impl Parameter for String {
    open spec fn matches_spec(ty: Il2CppType) -> bool {
        ty.is_builtin_spec(Builtin::Str)
    }

    fn matches(ty: &Il2CppType) -> bool {
        ty.is_builtin(Builtin::Str)
    }

    proof fn value_fits_ty(self, ty: Il2CppType) {
    }
}

impl Return for String {
    open spec fn matches_spec(ty: Il2CppType) -> bool {
        ty.is_builtin_spec(Builtin::Str)
    }

    fn matches(ty: &Il2CppType) -> bool {
        ty.is_builtin(Builtin::Str)
    }

    proof fn fit_value_decodes(ty: Il2CppType, v: Value) {
    }
}

impl Type for () {
    open spec fn to_value(self) -> Value {
        Value::Void
    }

    open spec fn of_value(v: Value) -> Option<()> {
        match v {
            Value::Void => Some(()),
            _ => None,
        }
    }

    fn into_value(self) -> Value {
        Value::Void
    }

    fn from_value(v: &Value) -> Option<()> {
        match v {
            Value::Void => Some(()),
            _ => None,
        }
    }

    proof fn round_trip(self) {
    }
}

impl Return for () {
    open spec fn matches_spec(ty: Il2CppType) -> bool {
        ty.is_builtin_spec(Builtin::Void)
    }

    fn matches(ty: &Il2CppType) -> bool {
        ty.is_builtin(Builtin::Void)
    }

    proof fn fit_value_decodes(ty: Il2CppType, v: Value) {
    }
}

impl ThisParameter for () {
    open spec fn matches_spec(m: MethodInfo) -> bool {
        m.is_static
    }

    open spec fn to_receiver(self) -> Option<Il2CppObject> {
        None
    }

    open spec fn of_receiver(r: Option<Il2CppObject>) -> Option<()> {
        match r {
            None => Some(()),
            Some(_) => None,
        }
    }

    fn matches(m: &MethodInfo) -> bool {
        m.is_static
    }

    fn into_actual(self) -> Option<Il2CppObject> {
        None
    }

    fn from_actual(r: Option<Il2CppObject>) -> Option<()> {
        match r {
            None => Some(()),
            Some(_) => None,
        }
    }
}

impl ThisParameter for Il2CppObject {
    open spec fn matches_spec(m: MethodInfo) -> bool {
        !m.is_static
    }

    open spec fn to_receiver(self) -> Option<Il2CppObject> {
        Some(self)
    }

    open spec fn of_receiver(r: Option<Il2CppObject>) -> Option<Il2CppObject> {
        r
    }

    fn matches(m: &MethodInfo) -> bool {
        !m.is_static
    }

    fn into_actual(self) -> Option<Il2CppObject> {
        Some(self)
    }

    fn from_actual(r: Option<Il2CppObject>) -> Option<Il2CppObject> {
        r
    }
}

impl ThisParameter for Option<Il2CppObject> {
    open spec fn matches_spec(m: MethodInfo) -> bool {
        !m.is_static
    }

    open spec fn to_receiver(self) -> Option<Il2CppObject> {
        self
    }

    open spec fn of_receiver(r: Option<Il2CppObject>) -> Option<Option<Il2CppObject>> {
        Some(r)
    }

    fn matches(m: &MethodInfo) -> bool {
        !m.is_static
    }

    fn into_actual(self) -> Option<Il2CppObject> {
        self
    }

    fn from_actual(r: Option<Il2CppObject>) -> Option<Option<Il2CppObject>> {
        Some(r)
    }
}

impl Parameters for () {
    open spec fn matches_spec(params: Seq<ParameterInfo>) -> bool {
        params.len() == 0
    }

    open spec fn to_values(self) -> Seq<Value> {
        Seq::empty()
    }

    fn matches(params: &Vec<ParameterInfo>) -> bool {
        params.len() == 0
    }

    fn into_actual(self) -> (v: Vec<Value>) {
        let v: Vec<Value> = Vec::new();
        assert(v@ =~= self.to_values());
        v
    }
}

impl<A: Parameter> Parameters for (A,) {
    open spec fn matches_spec(params: Seq<ParameterInfo>) -> bool {
        params.len() == 1 && A::matches_spec(params[0].ty)
    }

    open spec fn to_values(self) -> Seq<Value> {
        seq![self.0.to_value()]
    }

    fn matches(params: &Vec<ParameterInfo>) -> bool {
        params.len() == 1 && A::matches(&params[0].ty)
    }

    fn into_actual(self) -> (v: Vec<Value>) {
        let mut v: Vec<Value> = Vec::new();
        let ghost g = self;
        v.push(self.0.into_value());
        assert(v@ =~= g.to_values());
        v
    }
}

impl<A: Parameter, B: Parameter> Parameters for (A, B) {
    open spec fn matches_spec(params: Seq<ParameterInfo>) -> bool {
        params.len() == 2 && A::matches_spec(params[0].ty) && B::matches_spec(params[1].ty)
    }

    open spec fn to_values(self) -> Seq<Value> {
        seq![self.0.to_value(), self.1.to_value()]
    }

    fn matches(params: &Vec<ParameterInfo>) -> bool {
        params.len() == 2 && A::matches(&params[0].ty) && B::matches(&params[1].ty)
    }

    fn into_actual(self) -> (v: Vec<Value>) {
        let mut v: Vec<Value> = Vec::new();
        let ghost g = self;
        let (a, b) = self;
        v.push(a.into_value());
        v.push(b.into_value());
        assert(v@ =~= g.to_values());
        v
    }
}

impl<A: Parameter, B: Parameter, C: Parameter> Parameters for (A, B, C) {
    open spec fn matches_spec(params: Seq<ParameterInfo>) -> bool {
        params.len() == 3 && A::matches_spec(params[0].ty) && B::matches_spec(params[1].ty)
            && C::matches_spec(params[2].ty)
    }

    open spec fn to_values(self) -> Seq<Value> {
        seq![self.0.to_value(), self.1.to_value(), self.2.to_value()]
    }

    fn matches(params: &Vec<ParameterInfo>) -> bool {
        params.len() == 3 && A::matches(&params[0].ty) && B::matches(&params[1].ty)
            && C::matches(&params[2].ty)
    }

    fn into_actual(self) -> (v: Vec<Value>) {
        let mut v: Vec<Value> = Vec::new();
        let ghost g = self;
        let (a, b, c) = self;
        v.push(a.into_value());
        v.push(b.into_value());
        v.push(c.into_value());
        assert(v@ =~= g.to_values());
        v
    }
}

} // verus!
