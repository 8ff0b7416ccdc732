//! Field records and typed field access.
//!
//! A [`FieldInfo`] is a read-only view over a managed field: its name, its
//! declared type and the slot it occupies in an instance. Typed `store` and
//! `load` move values between a host type and the field's slot; their type
//! check against the field descriptor is exactly what makes the conversion
//! on the other side succeed.

use vstd::prelude::*;

use crate::class::Il2CppClass;
use crate::object::Il2CppObject;
use crate::ty::Il2CppType;
use crate::typecheck::{Parameter, Return, Type};
use crate::value::{value_fits, Value};

verus! {

/// Whether an instance's field slots agree, tag for tag, with the fields a
/// class declares: one slot per declared field, each holding a fitting
/// value. This is the well-formedness that field access preserves.
pub open spec fn instance_fits(fields: Seq<Value>, class: Il2CppClass) -> bool {
    fields.len() == class.fields@.len() && (forall|i: int|
        0 <= i < class.fields@.len() ==> value_fits(fields[i], class.fields@[i].ty))
}

/// A managed field record: name, declared type, and instance slot.
pub struct FieldInfo {
    /// Field name.
    pub name: String,
    /// Declared type of the field.
    pub ty: Il2CppType,
    /// Index of the field's slot in an instance of the declaring class.
    pub slot: usize,
}

impl FieldInfo {
    /// Name of the field.
    pub fn name(&self) -> (r: &str)
        ensures
            r@ == self.name@,
    {
        self.name.as_str()
    }

    /// Declared type of the field.
    pub fn ty(&self) -> (r: &Il2CppType)
        ensures
            r == &self.ty,
    {
        &self.ty
    }

    /// Store a typechecked value into the field of a live instance.
    ///
    /// The stored slot afterwards holds exactly the runtime representation
    /// of `val`, and its tag agrees with the field's declared type.
    pub fn store<A: Parameter>(&self, instance: &mut Il2CppObject, val: A)
        requires
            A::matches_spec(self.ty),
            self.slot < old(instance).fields@.len(),
        ensures
            final(instance).fields@ == old(instance).fields@.update(
                self.slot as int,
                val.to_value(),
            ),
            value_fits(final(instance).fields@[self.slot as int], self.ty),
    {
        self.store_unchecked(instance, val);
    }

    /// Store a value into the field without re-deriving the type check;
    /// the caller guarantees that the host type matches the field.
    pub fn store_unchecked<A: Parameter>(&self, instance: &mut Il2CppObject, val: A)
        requires
            A::matches_spec(self.ty),
            self.slot < old(instance).fields@.len(),
        ensures
            final(instance).fields@ == old(instance).fields@.update(
                self.slot as int,
                val.to_value(),
            ),
            value_fits(final(instance).fields@[self.slot as int], self.ty),
    {
        proof {
            val.value_fits_ty(self.ty);
        }
        instance.fields[self.slot] = val.into_value();
    }

    /// Load a typechecked value from the field of a live instance.
    ///
    /// The slot's tag agreeing with the field type, decoding at a matching
    /// host type cannot fail; the result is exactly the decoded slot.
    pub fn load<R: Return>(&self, instance: &mut Il2CppObject) -> (r: R)
        requires
            R::matches_spec(self.ty),
            self.slot < old(instance).fields@.len(),
            value_fits(old(instance).fields@[self.slot as int], self.ty),
        ensures
            *final(instance) == *old(instance),
            Some(r) == R::of_value(old(instance).fields@[self.slot as int]),
    {
        self.load_unchecked(instance)
    }

    /// Load a value from the field without re-deriving the type check;
    /// the caller guarantees that the host type matches the field and that
    /// the slot holds a fitting value.
    pub fn load_unchecked<R: Return>(&self, instance: &mut Il2CppObject) -> (r: R)
        requires
            R::matches_spec(self.ty),
            self.slot < old(instance).fields@.len(),
            value_fits(old(instance).fields@[self.slot as int], self.ty),
        ensures
            *final(instance) == *old(instance),
            Some(r) == R::of_value(old(instance).fields@[self.slot as int]),
    {
        proof {
            R::fit_value_decodes(self.ty, instance.fields@[self.slot as int]);
        }
        let v: &Value = &instance.fields[self.slot];
        let r: Option<R> = R::from_value(v);
        r.unwrap()
    }
}

/// Law: a well-formed instance of a class stays well-formed when one of the
/// class's declared fields is stored with a host value of a matching type.
pub proof fn lemma_store_preserves_fit<A: Parameter>(
    fields: Seq<Value>,
    class: Il2CppClass,
    i: int,
    val: A,
)
    requires
        instance_fits(fields, class),
        0 <= i < class.fields@.len(),
        A::matches_spec(class.fields@[i].ty),
    ensures
        instance_fits(fields.update(i, val.to_value()), class),
{
    val.value_fits_ty(class.fields@[i].ty);
}

/// Law: storing a value into a field slot and then loading it back at the
/// same host type yields a value equal to the one stored, for every
/// capability-supporting host type.
pub proof fn lemma_store_load_round_trip<T: Type>(fields: Seq<Value>, slot: int, x: T)
    requires
        0 <= slot < fields.len(),
    ensures
        T::of_value(fields.update(slot, x.to_value())[slot]) == Some(x),
{
    x.round_trip();
}

} // verus!
