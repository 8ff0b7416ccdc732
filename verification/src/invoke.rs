//! The invocation layer.
//!
//! A managed call runs in three steps: resolve the method, marshal the
//! typed arguments into the runtime's type-erased values, and decode what
//! the native invocation primitive produced. The primitive itself — which
//! runs managed code on the calling thread and fills a return slot and an
//! exception slot — lies outside the library; its outcome comes back as an
//! [`InvokeOutcome`], and decoding never touches the return slot when the
//! exception slot is set.

use vstd::prelude::*;

use crate::method_info::MethodInfo;
use crate::object::Il2CppException;
use crate::typecheck::{Parameters, Return};
use crate::value::{value_fits, Value};

verus! {

/// What the native invocation primitive produced: a return slot, and an
/// exception slot that is set exactly when the managed code threw.
pub struct InvokeOutcome {
    /// The return slot; meaningful only when no exception is set.
    pub result: Value,
    /// The thrown managed exception, if any.
    pub exception: Option<Il2CppException>,
}

impl MethodInfo {
    /// Marshal a typechecked argument tuple into the runtime representation
    /// the invocation primitive takes, in parameter order.
    pub fn marshal_arguments<A: Parameters>(&self, args: A) -> (v: Vec<Value>)
        requires
            A::matches_spec(self.parameters@),
        ensures
            v@ == args.to_values(),
    {
        args.into_actual()
    }

    /// Decode the outcome of invoking this method.
    ///
    /// A set exception slot yields the exception-error path, whatever the
    /// return slot holds; otherwise the return slot — whose tag the runtime
    /// guarantees to agree with the method's return type — decodes at the
    /// matching host type, which cannot fail.
    pub fn complete_invoke<R: Return>(&self, outcome: InvokeOutcome) -> (r: Result<
        R,
        Il2CppException,
    >)
        requires
            R::matches_spec(self.return_ty),
            outcome.exception is None ==> value_fits(outcome.result, self.return_ty),
        ensures
            match outcome.exception {
                Some(e) => r == Err::<R, Il2CppException>(e),
                None => R::of_value(outcome.result) is Some && r == Ok::<R, Il2CppException>(
                    R::of_value(outcome.result).unwrap(),
                ),
            },
    {
        let InvokeOutcome { result, exception } = outcome;
        match exception {
            Some(e) => Err(e),
            None => {
                proof {
                    R::fit_value_decodes(self.return_ty, result);
                }
                let v: Option<R> = R::from_value(&result);
                Ok(v.unwrap())
            },
        }
    }
}

} // verus!
