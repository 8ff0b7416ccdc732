//! A typed, verified model of a managed-runtime reflection bridge.
//!
//! The library resolves classes, methods and fields of a managed object
//! runtime by name and by host-language type signature, walking inheritance
//! chains under a strict unique-match policy, and converts typed argument
//! and return values to and from the runtime's type-erased representation.
//!
//! Runtime metadata is held as plain records: a class owns its declared
//! member lists and its parent chain, so hierarchy traversal is finite by
//! construction. The native invocation primitive itself lies outside the
//! library; callers hand its outcome back in to have the result decoded.

mod class;
mod domain;
mod field_info;
mod invoke;
mod method_info;
mod object;
mod ty;
mod typecheck;
mod value;

pub use class::{
    arity_ambiguous, arity_matches, arity_unique_at, callee_ambiguous, callee_matches,
    callee_unique_at, field_first_at, field_matches, implements_spec, level_assignable,
    lemma_first_candidate_level_decides, lemma_hierarchy_len, lemma_hierarchy_short_circuit,
    lemma_sig_trichotomy, lemma_static_exclusivity, lemma_this_parameter_gating, same_identity,
    sig_ambiguous,
    sig_matches, sig_no_match, sig_unique_at, static_ambiguous, static_matches, static_unique_at,
    Hierarchy, Il2CppClass,
};
pub use domain::{class_named, find_in_assemblies, find_in_classes, Il2CppAssembly, Il2CppDomain,
    Il2CppImage};
pub use field_info::{
    instance_fits, lemma_store_load_round_trip, lemma_store_preserves_fit, FieldInfo,
};
pub use invoke::InvokeOutcome;
pub use method_info::{MethodInfo, ParameterInfo};
pub use object::{Il2CppException, Il2CppObject};
pub use ty::{Builtin, Il2CppType};
pub use typecheck::{lemma_value_round_trip, Parameter, Parameters, Return, ThisParameter, Type};
pub use value::Value;
