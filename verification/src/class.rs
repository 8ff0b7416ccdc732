//! Class records, hierarchy traversal and member search.
//!
//! An [`Il2CppClass`] holds a class's identity, its declared members, and
//! its parent chain. The chain is owned by the class record itself, so it is
//! finite by construction and traversal terminates. Member search walks the
//! chain under the unique-match policy: at the closest level that has any
//! candidate, exactly one candidate must match, or the search fails.

use vstd::prelude::*;
use vstd::string::StringExecFns;

use crate::field_info::FieldInfo;
use crate::method_info::MethodInfo;
use crate::ty::Il2CppType;
use crate::typecheck::{Parameters, Return, ThisParameter};

verus! {

/// Whether a method carries the given name and matches the signature shape
/// `A -> R`.
pub open spec fn sig_matches<A: Parameters, R: Return>(m: MethodInfo, name: Seq<char>) -> bool {
    m.name@ == name && A::matches_spec(m.parameters@) && R::matches_spec(m.return_ty)
}

/// Whether `j` is the one and only index of `ms` matching name and signature.
pub open spec fn sig_unique_at<A: Parameters, R: Return>(
    ms: Seq<MethodInfo>,
    name: Seq<char>,
    j: int,
) -> bool {
    0 <= j < ms.len() && sig_matches::<A, R>(ms[j], name) && (forall|k: int|
        0 <= k < ms.len() && k != j ==> !sig_matches::<A, R>(ms[k], name))
}

/// Whether two or more indices of `ms` match name and signature.
pub open spec fn sig_ambiguous<A: Parameters, R: Return>(ms: Seq<MethodInfo>, name: Seq<char>) -> bool {
    exists|j: int, k: int|
        0 <= j < k < ms.len() && sig_matches::<A, R>(ms[j], name) && sig_matches::<A, R>(
            ms[k],
            name,
        )
}

/// Whether no index of `ms` matches name and signature.
pub open spec fn sig_no_match<A: Parameters, R: Return>(ms: Seq<MethodInfo>, name: Seq<char>) -> bool {
    forall|k: int| 0 <= k < ms.len() ==> !sig_matches::<A, R>(ms[k], name)
}

/// Whether a method is static and carries the given name and signature.
pub open spec fn static_matches<A: Parameters, R: Return>(m: MethodInfo, name: Seq<char>) -> bool {
    m.is_static && sig_matches::<A, R>(m, name)
}

/// Whether `j` is the one and only index of `ms` matching as a static method.
pub open spec fn static_unique_at<A: Parameters, R: Return>(
    ms: Seq<MethodInfo>,
    name: Seq<char>,
    j: int,
) -> bool {
    0 <= j < ms.len() && static_matches::<A, R>(ms[j], name) && (forall|k: int|
        0 <= k < ms.len() && k != j ==> !static_matches::<A, R>(ms[k], name))
}

/// Whether two or more indices of `ms` match as static methods.
pub open spec fn static_ambiguous<A: Parameters, R: Return>(
    ms: Seq<MethodInfo>,
    name: Seq<char>,
) -> bool {
    exists|j: int, k: int|
        0 <= j < k < ms.len() && static_matches::<A, R>(ms[j], name) && static_matches::<A, R>(
            ms[k],
            name,
        )
}

/// Whether a method matches from the callee perspective: receiver capability,
/// name, parameters and return all agree.
pub open spec fn callee_matches<T: ThisParameter, P: Parameters, R: Return>(
    m: MethodInfo,
    name: Seq<char>,
) -> bool {
    m.name@ == name && T::matches_spec(m) && P::matches_spec(m.parameters@) && R::matches_spec(
        m.return_ty,
    )
}

/// Whether `j` is the one and only index of `ms` matching from the callee
/// perspective.
pub open spec fn callee_unique_at<T: ThisParameter, P: Parameters, R: Return>(
    ms: Seq<MethodInfo>,
    name: Seq<char>,
    j: int,
) -> bool {
    0 <= j < ms.len() && callee_matches::<T, P, R>(ms[j], name) && (forall|k: int|
        0 <= k < ms.len() && k != j ==> !callee_matches::<T, P, R>(ms[k], name))
}

/// Whether two or more indices of `ms` match from the callee perspective.
pub open spec fn callee_ambiguous<T: ThisParameter, P: Parameters, R: Return>(
    ms: Seq<MethodInfo>,
    name: Seq<char>,
) -> bool {
    exists|j: int, k: int|
        0 <= j < k < ms.len() && callee_matches::<T, P, R>(ms[j], name) && callee_matches::<
            T,
            P,
            R,
        >(ms[k], name)
}

/// Whether a method carries the given name and parameter count.
pub open spec fn arity_matches(m: MethodInfo, name: Seq<char>, arity: nat) -> bool {
    m.name@ == name && m.parameters@.len() == arity
}

/// Whether `j` is the one and only index of `ms` matching name and arity.
pub open spec fn arity_unique_at(ms: Seq<MethodInfo>, name: Seq<char>, arity: nat, j: int) -> bool {
    0 <= j < ms.len() && arity_matches(ms[j], name, arity) && (forall|k: int|
        0 <= k < ms.len() && k != j ==> !arity_matches(ms[k], name, arity))
}

/// Whether two or more indices of `ms` match name and arity.
pub open spec fn arity_ambiguous(ms: Seq<MethodInfo>, name: Seq<char>, arity: nat) -> bool {
    exists|j: int, k: int|
        0 <= j < k < ms.len() && arity_matches(ms[j], name, arity) && arity_matches(
            ms[k],
            name,
            arity,
        )
}

/// Whether a field carries the given name.
pub open spec fn field_matches(f: FieldInfo, name: Seq<char>) -> bool {
    f.name@ == name
}

/// Whether `j` is the first index of `fs` carrying the given name.
pub open spec fn field_first_at(fs: Seq<FieldInfo>, name: Seq<char>, j: int) -> bool {
    0 <= j < fs.len() && field_matches(fs[j], name) && (forall|k: int|
        0 <= k < j ==> !field_matches(fs[k], name))
}

/// A managed class record: identity, parent chain, and declared members.
pub struct Il2CppClass {
    /// Namespace containing the class; empty for the global namespace.
    pub namespace: String,
    /// Name of the class.
    pub name: String,
    /// Parent of the class, if it inherits from any.
    pub parent: Option<Box<Il2CppClass>>,
    /// Methods the class itself declares, excluding inherited ones.
    pub methods: Vec<MethodInfo>,
    /// Fields the class itself declares, excluding inherited ones.
    pub fields: Vec<FieldInfo>,
    /// Interfaces the class implements.
    pub interfaces: Vec<Il2CppClass>,
    /// Types nested inside the class.
    pub nested_types: Vec<Il2CppClass>,
}

impl Il2CppClass {
    /// The inheritance chain: the class itself, then its ancestors in order.
    pub open spec fn hierarchy_spec(self) -> Seq<Il2CppClass>
        decreases self,
    {
        match self.parent {
            None => seq![self],
            Some(p) => seq![self] + p.hierarchy_spec(),
        }
    }

    /// Length of the parent chain above the class.
    pub open spec fn depth(self) -> nat
        decreases self,
    {
        match self.parent {
            None => 0,
            Some(p) => 1 + p.depth(),
        }
    }

    /// Name of the class.
    pub fn name(&self) -> (r: &str)
        ensures
            r@ == self.name@,
    {
        self.name.as_str()
    }

    /// Namespace containing the class.
    pub fn namespace(&self) -> (r: &str)
        ensures
            r@ == self.namespace@,
    {
        self.namespace.as_str()
    }

    /// Methods the class itself declares.
    pub fn methods(&self) -> (r: &Vec<MethodInfo>)
        ensures
            r == &self.methods,
    {
        &self.methods
    }

    /// Fields the class itself declares.
    pub fn fields(&self) -> (r: &Vec<FieldInfo>)
        ensures
            r == &self.fields,
    {
        &self.fields
    }

    /// Interfaces the class implements.
    pub fn implemented_interfaces(&self) -> (r: &Vec<Il2CppClass>)
        ensures
            r == &self.interfaces,
    {
        &self.interfaces
    }

    /// Types nested inside the class.
    pub fn nested_types(&self) -> (r: &Vec<Il2CppClass>)
        ensures
            r == &self.nested_types,
    {
        &self.nested_types
    }

    /// Parent of the class, if it inherits from any.
    pub fn parent(&self) -> (r: Option<&Il2CppClass>)
        ensures
            match r {
                Some(p) => self.parent is Some && *p == *self.parent.unwrap(),
                None => self.parent is None,
            },
    {
        match &self.parent {
            Some(p) => Some(p),
            None => None,
        }
    }

    /// The class's display form: `Namespace.Name`, or the bare name when the
    /// namespace is empty.
    pub fn display_name(&self) -> (r: String)
        ensures
            self.namespace@.len() == 0 ==> r@ == self.name@,
            self.namespace@.len() > 0 ==> r@ == self.namespace@ + "."@ + self.name@,
    {
        if self.namespace.as_str().is_empty() {
            self.name.clone()
        } else {
            let mut s = self.namespace.clone();
            s.append(".");
            s.append(self.name.as_str());
            s
        }
    }

    /// Begin a fresh traversal of the inheritance chain, starting with the
    /// class itself.
    pub fn hierarchy<'a>(&'a self) -> (r: Hierarchy<'a>)
        ensures
            r.remaining() == self.hierarchy_spec(),
    {
        Hierarchy { current: Some(self) }
    }
}

/// Law: hierarchy traversal from a class whose parent chain has length `D`
/// yields exactly `D + 1` entries, the class itself first.
pub proof fn lemma_hierarchy_len(c: Il2CppClass)
    ensures
        c.hierarchy_spec().len() == c.depth() + 1,
        c.hierarchy_spec()[0] == c,
    decreases c,
{
    match c.parent {
        None => {},
        Some(p) => {
            lemma_hierarchy_len(*p);
        },
    }
}

/// A restartable cursor over the parents of a class, beginning with the
/// class itself.
pub struct Hierarchy<'a> {
    /// The next class the cursor will yield, if any remain.
    pub current: Option<&'a Il2CppClass>,
}

impl<'a> Hierarchy<'a> {
    /// The classes the cursor has yet to yield, in order.
    pub open spec fn remaining(self) -> Seq<Il2CppClass> {
        match self.current {
            None => Seq::empty(),
            Some(c) => c.hierarchy_spec(),
        }
    }

    /// Yield the next class of the chain, or nothing once it is exhausted.
    pub fn next(&mut self) -> (r: Option<&'a Il2CppClass>)
        ensures
            old(self).remaining().len() == 0 ==> r is None && final(self).remaining()
                == Seq::<Il2CppClass>::empty(),
            old(self).remaining().len() > 0 ==> (match r {
                Some(c) => *c == old(self).remaining()[0] && final(self).remaining() == old(
                    self,
                ).remaining().drop_first(),
                None => false,
            }),
    {
        match self.current {
            None => None,
            Some(c) => {
                match &c.parent {
                    Some(p) => {
                        self.current = Some(p);
                        proof {
                            assert(c.hierarchy_spec().drop_first() =~= p.hierarchy_spec());
                        }
                    },
                    None => {
                        self.current = None;
                        proof {
                            assert(c.hierarchy_spec().drop_first() =~= Seq::<Il2CppClass>::empty());
                        }
                    },
                }
                Some(c)
            },
        }
    }
}

impl Il2CppClass {
    /// What instance search returns: walking the hierarchy from the class
    /// itself, the closest level owning a matching candidate decides — one
    /// match there resolves, two or more fail, none defers to the parent.
    pub open spec fn find_method_spec<A: Parameters, R: Return>(self, name: Seq<char>) -> Option<
        MethodInfo,
    >
        decreases self,
    {
        if sig_ambiguous::<A, R>(self.methods@, name) {
            None
        } else if exists|j: int| sig_unique_at::<A, R>(self.methods@, name, j) {
            Some(self.methods@[choose|j: int| sig_unique_at::<A, R>(self.methods@, name, j)])
        } else {
            match self.parent {
                Some(p) => p.find_method_spec::<A, R>(name),
                None => None,
            }
        }
    }

    /// Find a method belonging to the class or its parents by name, with
    /// type checking of the signature shape `A -> R`.
    pub fn find_method<A: Parameters, R: Return>(&self, name: &str) -> (r: Option<&MethodInfo>)
        ensures
            match (r, self.find_method_spec::<A, R>(name@)) {
                (Some(m), Some(sm)) => *m == sm,
                (None, None) => true,
                _ => false,
            },
        decreases *self,
    {
        let key: String = name.to_owned();
        let n: usize = self.methods.len();
        let mut i: usize = 0;
        let mut found: Option<usize> = None;
        while i < n
            invariant
                n == self.methods@.len(),
                key@ == name@,
                i <= n,
                match found {
                    None => forall|k: int|
                        0 <= k < i ==> !sig_matches::<A, R>(self.methods@[k], name@),
                    Some(j) => j < i && sig_matches::<A, R>(self.methods@[j as int], name@) && (
                    forall|k: int|
                        0 <= k < i && k != j ==> !sig_matches::<A, R>(self.methods@[k], name@)),
                },
            decreases n - i,
        {
            let m = &self.methods[i];
            let ok = m.name == key && A::matches(&m.parameters) && R::matches(&m.return_ty);
            if ok {
                match found {
                    Some(_) => {
                        proof {
                            assert(sig_ambiguous::<A, R>(self.methods@, name@));
                        }
                        return None;
                    },
                    None => {
                        found = Some(i);
                    },
                }
            }
            i += 1;
        }
        match found {
            Some(j) => {
                proof {
                    assert(sig_unique_at::<A, R>(self.methods@, name@, j as int));
                }
                Some(&self.methods[j])
            },
            None => match &self.parent {
                Some(p) => p.find_method::<A, R>(name),
                None => None,
            },
        }
    }

    /// What static search returns: the class's own declared methods alone
    /// are searched, and the single static candidate matching name and
    /// signature wins; zero or several candidates fail.
    pub open spec fn find_method_static_spec<A: Parameters, R: Return>(
        self,
        name: Seq<char>,
    ) -> Option<MethodInfo> {
        if static_ambiguous::<A, R>(self.methods@, name) {
            None
        } else if exists|j: int| static_unique_at::<A, R>(self.methods@, name, j) {
            Some(self.methods@[choose|j: int| static_unique_at::<A, R>(self.methods@, name, j)])
        } else {
            None
        }
    }

    /// Find a static method declared by the class itself by name, with type
    /// checking of the signature shape `A -> R`. Instance methods are never
    /// returned, whatever their name and signature.
    pub fn find_method_static<A: Parameters, R: Return>(&self, name: &str) -> (r: Option<
        &MethodInfo,
    >)
        ensures
            match (r, self.find_method_static_spec::<A, R>(name@)) {
                (Some(m), Some(sm)) => *m == sm,
                (None, None) => true,
                _ => false,
            },
            r matches Some(m) ==> m.is_static,
    {
        let key: String = name.to_owned();
        let n: usize = self.methods.len();
        let mut i: usize = 0;
        let mut found: Option<usize> = None;
        while i < n
            invariant
                n == self.methods@.len(),
                key@ == name@,
                i <= n,
                match found {
                    None => forall|k: int|
                        0 <= k < i ==> !static_matches::<A, R>(self.methods@[k], name@),
                    Some(j) => j < i && static_matches::<A, R>(self.methods@[j as int], name@) && (
                    forall|k: int|
                        0 <= k < i && k != j ==> !static_matches::<A, R>(self.methods@[k], name@)),
                },
            decreases n - i,
        {
            let m = &self.methods[i];
            let ok = m.name == key && m.is_static && A::matches(&m.parameters) && R::matches(
                &m.return_ty,
            );
            if ok {
                match found {
                    Some(_) => {
                        proof {
                            assert(static_ambiguous::<A, R>(self.methods@, name@));
                        }
                        return None;
                    },
                    None => {
                        found = Some(i);
                    },
                }
            }
            i += 1;
        }
        match found {
            Some(j) => {
                proof {
                    assert(static_unique_at::<A, R>(self.methods@, name@, j as int));
                }
                Some(&self.methods[j])
            },
            None => None,
        }
    }

    /// What callee-perspective search returns: instance search extended with
    /// the receiver-capability predicate of `T`.
    pub open spec fn find_method_callee_spec<T: ThisParameter, P: Parameters, R: Return>(
        self,
        name: Seq<char>,
    ) -> Option<MethodInfo>
        decreases self,
    {
        if callee_ambiguous::<T, P, R>(self.methods@, name) {
            None
        } else if exists|j: int| callee_unique_at::<T, P, R>(self.methods@, name, j) {
            Some(
                self.methods@[choose|j: int|
                    callee_unique_at::<T, P, R>(self.methods@, name, j)],
            )
        } else {
            match self.parent {
                Some(p) => p.find_method_callee_spec::<T, P, R>(name),
                None => None,
            }
        }
    }

    /// Find a method belonging to the class or its parents by name, checking
    /// the receiver capability `T` in addition to the signature shape — used
    /// when the resolved method will be invoked as a managed method rather
    /// than through the runtime.
    pub fn find_method_callee<T: ThisParameter, P: Parameters, R: Return>(
        &self,
        name: &str,
    ) -> (r: Option<&MethodInfo>)
        ensures
            match (r, self.find_method_callee_spec::<T, P, R>(name@)) {
                (Some(m), Some(sm)) => *m == sm,
                (None, None) => true,
                _ => false,
            },
        decreases *self,
    {
        let key: String = name.to_owned();
        let n: usize = self.methods.len();
        let mut i: usize = 0;
        let mut found: Option<usize> = None;
        while i < n
            invariant
                n == self.methods@.len(),
                key@ == name@,
                i <= n,
                match found {
                    None => forall|k: int|
                        0 <= k < i ==> !callee_matches::<T, P, R>(self.methods@[k], name@),
                    Some(j) => j < i && callee_matches::<T, P, R>(self.methods@[j as int], name@)
                        && (forall|k: int|
                        0 <= k < i && k != j ==> !callee_matches::<T, P, R>(
                            self.methods@[k],
                            name@,
                        )),
                },
            decreases n - i,
        {
            let m = &self.methods[i];
            let ok = m.name == key && T::matches(m) && P::matches(&m.parameters) && R::matches(
                &m.return_ty,
            );
            if ok {
                match found {
                    Some(_) => {
                        proof {
                            assert(callee_ambiguous::<T, P, R>(self.methods@, name@));
                        }
                        return None;
                    },
                    None => {
                        found = Some(i);
                    },
                }
            }
            i += 1;
        }
        match found {
            Some(j) => {
                proof {
                    assert(callee_unique_at::<T, P, R>(self.methods@, name@, j as int));
                }
                Some(&self.methods[j])
            },
            None => match &self.parent {
                Some(p) => p.find_method_callee::<T, P, R>(name),
                None => None,
            },
        }
    }

    /// What unchecked search returns: instance search by name and parameter
    /// count alone, without type checking.
    pub open spec fn find_method_unchecked_spec(self, name: Seq<char>, arity: nat) -> Option<
        MethodInfo,
    >
        decreases self,
    {
        if arity_ambiguous(self.methods@, name, arity) {
            None
        } else if exists|j: int| arity_unique_at(self.methods@, name, arity, j) {
            Some(self.methods@[choose|j: int| arity_unique_at(self.methods@, name, arity, j)])
        } else {
            match self.parent {
                Some(p) => p.find_method_unchecked_spec(name, arity),
                None => None,
            }
        }
    }

    /// Find a method belonging to the class or its parents by name and
    /// parameter count, without type checking.
    pub fn find_method_unchecked(&self, name: &str, parameters_count: usize) -> (r: Option<
        &MethodInfo,
    >)
        ensures
            match (r, self.find_method_unchecked_spec(name@, parameters_count as nat)) {
                (Some(m), Some(sm)) => *m == sm,
                (None, None) => true,
                _ => false,
            },
        decreases *self,
    {
        let key: String = name.to_owned();
        let n: usize = self.methods.len();
        let mut i: usize = 0;
        let mut found: Option<usize> = None;
        while i < n
            invariant
                n == self.methods@.len(),
                key@ == name@,
                i <= n,
                match found {
                    None => forall|k: int|
                        0 <= k < i ==> !arity_matches(
                            self.methods@[k],
                            name@,
                            parameters_count as nat,
                        ),
                    Some(j) => j < i && arity_matches(
                        self.methods@[j as int],
                        name@,
                        parameters_count as nat,
                    ) && (forall|k: int|
                        0 <= k < i && k != j ==> !arity_matches(
                            self.methods@[k],
                            name@,
                            parameters_count as nat,
                        )),
                },
            decreases n - i,
        {
            let m = &self.methods[i];
            let ok = m.name == key && m.parameters.len() == parameters_count;
            if ok {
                match found {
                    Some(_) => {
                        proof {
                            assert(arity_ambiguous(self.methods@, name@, parameters_count as nat));
                        }
                        return None;
                    },
                    None => {
                        found = Some(i);
                    },
                }
            }
            i += 1;
        }
        match found {
            Some(j) => {
                proof {
                    assert(arity_unique_at(
                        self.methods@,
                        name@,
                        parameters_count as nat,
                        j as int,
                    ));
                }
                Some(&self.methods[j])
            },
            None => match &self.parent {
                Some(p) => p.find_method_unchecked(name, parameters_count),
                None => None,
            },
        }
    }

    /// What field search returns: the first field carrying the name at the
    /// closest hierarchy level declaring any; field names are not
    /// overloaded, so no ambiguity rule applies.
    pub open spec fn find_field_spec(self, name: Seq<char>) -> Option<FieldInfo>
        decreases self,
    {
        if exists|j: int| field_first_at(self.fields@, name, j) {
            Some(self.fields@[choose|j: int| field_first_at(self.fields@, name, j)])
        } else {
            match self.parent {
                Some(p) => p.find_field_spec(name),
                None => None,
            }
        }
    }

    /// Find a field belonging to the class or its parents by name.
    pub fn find_field_unchecked(&self, name: &str) -> (r: Option<&FieldInfo>)
        ensures
            match (r, self.find_field_spec(name@)) {
                (Some(f), Some(sf)) => *f == sf,
                (None, None) => true,
                _ => false,
            },
        decreases *self,
    {
        let key: String = name.to_owned();
        let n: usize = self.fields.len();
        let mut i: usize = 0;
        while i < n
            invariant
                n == self.fields@.len(),
                key@ == name@,
                i <= n,
                forall|k: int| 0 <= k < i ==> !field_matches(self.fields@[k], name@),
            decreases n - i,
        {
            let f = &self.fields[i];
            if f.name == key {
                proof {
                    assert(field_first_at(self.fields@, name@, i as int));
                }
                return Some(&self.fields[i]);
            }
            i += 1;
        }
        match &self.parent {
            Some(p) => p.find_field_unchecked(name),
            None => None,
        }
    }
}

/// Whether two class records carry the same namespace and name.
pub open spec fn same_identity(a: Il2CppClass, b: Il2CppClass) -> bool {
    a.namespace@ == b.namespace@ && a.name@ == b.name@
}

/// Whether `c` directly implements an interface carrying `target`'s
/// identity.
pub open spec fn implements_spec(c: Il2CppClass, target: Il2CppClass) -> bool {
    exists|i: int| 0 <= i < c.interfaces@.len() && same_identity(c.interfaces@[i], target)
}

/// Whether a level of a parent chain makes `target` assignable: the level
/// itself carries the identity, or it implements an interface that does.
pub open spec fn level_assignable(c: Il2CppClass, target: Il2CppClass) -> bool {
    same_identity(c, target) || implements_spec(c, target)
}

impl Il2CppClass {
    /// Whether a value of class `other` may stand where this class is
    /// expected: some class of `other`'s parent chain carries this class's
    /// identity or implements an interface that does.
    pub open spec fn assignable_spec(self, other: Il2CppClass) -> bool {
        exists|d: int|
            0 <= d < other.hierarchy_spec().len() && level_assignable(
                other.hierarchy_spec()[d],
                self,
            )
    }

    /// Whether some interface `other` directly implements carries this
    /// class's identity.
    fn implemented_by(&self, other: &Il2CppClass) -> (r: bool)
        ensures
            r == implements_spec(*other, *self),
    {
        let n: usize = other.interfaces.len();
        let mut i: usize = 0;
        while i < n
            invariant
                n == other.interfaces@.len(),
                i <= n,
                forall|k: int| 0 <= k < i ==> !same_identity(other.interfaces@[k], *self),
            decreases n - i,
        {
            let itf = &other.interfaces[i];
            if itf.namespace == self.namespace && itf.name == self.name {
                return true;
            }
            i += 1;
        }
        false
    }

    /// Whether the class is assignable from `other`, walking `other`'s
    /// parent chain and each level's implemented interfaces.
    pub fn is_assignable_from(&self, other: &Il2CppClass) -> (r: bool)
        ensures
            r == self.assignable_spec(*other),
        decreases *other,
    {
        if (self.namespace == other.namespace && self.name == other.name)
            || self.implemented_by(other) {
            proof {
                assert(other.hierarchy_spec()[0] == *other);
                assert(level_assignable(other.hierarchy_spec()[0], *self));
            }
            true
        } else {
            match &other.parent {
                Some(p) => {
                    let r = self.is_assignable_from(p);
                    proof {
                        assert(other.hierarchy_spec() =~= seq![*other] + p.hierarchy_spec());
                        if self.assignable_spec(**p) {
                            let d = choose|d: int|
                                0 <= d < p.hierarchy_spec().len() && level_assignable(
                                    p.hierarchy_spec()[d],
                                    *self,
                                );
                            assert(other.hierarchy_spec()[d + 1] == p.hierarchy_spec()[d]);
                            assert(self.assignable_spec(*other));
                        }
                        if self.assignable_spec(*other) {
                            let d = choose|d: int|
                                0 <= d < other.hierarchy_spec().len() && level_assignable(
                                    other.hierarchy_spec()[d],
                                    *self,
                                );
                            assert(d != 0);
                            assert(p.hierarchy_spec()[d - 1] == other.hierarchy_spec()[d]);
                            assert(self.assignable_spec(**p));
                        }
                    }
                    r
                },
                None => {
                    proof {
                        assert(other.hierarchy_spec() =~= seq![*other]);
                    }
                    false
                },
            }
        }
    }

    /// The runtime type descriptor a value of this class carries as a
    /// method receiver.
    pub fn this_arg_ty(&self) -> (r: Il2CppType)
        ensures
            r matches Il2CppType::Class { namespace, name } && namespace@ == self.namespace@
                && name@ == self.name@,
    {
        Il2CppType::Class { namespace: self.namespace.clone(), name: self.name.clone() }
    }

    /// The runtime type descriptor a by-value argument of this class
    /// carries.
    pub fn byval_arg_ty(&self) -> (r: Il2CppType)
        ensures
            r matches Il2CppType::Class { namespace, name } && namespace@ == self.namespace@
                && name@ == self.name@,
    {
        Il2CppType::Class { namespace: self.namespace.clone(), name: self.name.clone() }
    }
}

/// Law: a member level always falls in one of three cases — no matching
/// candidate, exactly one, or an ambiguous set of two or more. Together
/// with the level-decides law, this pins instance search down on every
/// hierarchy: the first level with any candidate either resolves uniquely
/// or fails.
pub proof fn lemma_sig_trichotomy<A: Parameters, R: Return>(ms: Seq<MethodInfo>, name: Seq<char>)
    ensures
        sig_no_match::<A, R>(ms, name) || sig_ambiguous::<A, R>(ms, name) || (exists|j: int|
            sig_unique_at::<A, R>(ms, name, j)),
{
    if !sig_no_match::<A, R>(ms, name) {
        assert(exists|j: int| 0 <= j < ms.len() && sig_matches::<A, R>(ms[j], name));
        let j = choose|j: int| 0 <= j < ms.len() && sig_matches::<A, R>(ms[j], name);
        if forall|k: int| 0 <= k < ms.len() && k != j ==> !sig_matches::<A, R>(ms[k], name) {
            assert(sig_unique_at::<A, R>(ms, name, j));
        } else {
            assert(exists|k: int|
                0 <= k < ms.len() && k != j && sig_matches::<A, R>(ms[k], name));
            let k = choose|k: int|
                0 <= k < ms.len() && k != j && sig_matches::<A, R>(ms[k], name);
            assert(sig_ambiguous::<A, R>(ms, name));
        }
    }
}

/// Law: instance search is decided at the first hierarchy level that has any
/// matching candidate. A unique candidate there is the result; two or more
/// candidates there fail the search regardless of what ancestors declare.
pub proof fn lemma_first_candidate_level_decides<A: Parameters, R: Return>(
    c: Il2CppClass,
    name: Seq<char>,
    d: int,
)
    requires
        0 <= d < c.hierarchy_spec().len(),
        forall|e: int| 0 <= e < d ==> sig_no_match::<A, R>(c.hierarchy_spec()[e].methods@, name),
    ensures
        sig_ambiguous::<A, R>(c.hierarchy_spec()[d].methods@, name) ==> c.find_method_spec::<A, R>(
            name,
        ) is None,
        forall|j: int|
            sig_unique_at::<A, R>(c.hierarchy_spec()[d].methods@, name, j)
                ==> c.find_method_spec::<A, R>(name) == Some(c.hierarchy_spec()[d].methods@[j]),
    decreases c,
{
    if d == 0 {
        assert(c.hierarchy_spec()[0] == c);
    } else {
        let p = c.parent.unwrap();
        assert(c.hierarchy_spec()[0] == c);
        assert(sig_no_match::<A, R>(c.methods@, name));
        assert(!sig_ambiguous::<A, R>(c.methods@, name));
        assert(!(exists|j: int| sig_unique_at::<A, R>(c.methods@, name, j)));
        assert(c.hierarchy_spec() =~= seq![c] + p.hierarchy_spec());
        assert(forall|e: int|
            0 <= e < d - 1 ==> sig_no_match::<A, R>(p.hierarchy_spec()[e].methods@, name)) by {
            assert(forall|e: int|
                0 <= e < d - 1 ==> p.hierarchy_spec()[e] == c.hierarchy_spec()[e + 1]);
        }
        lemma_first_candidate_level_decides::<A, R>(*p, name, d - 1);
        assert(c.hierarchy_spec()[d] == p.hierarchy_spec()[d - 1]);
    }
}

/// Law: when a class's own level has no matching candidate, instance search
/// on the class equals instance search on its parent — a same-named method
/// with a non-matching signature does not shadow an inherited match.
pub proof fn lemma_hierarchy_short_circuit<A: Parameters, R: Return>(c: Il2CppClass, name: Seq<char>)
    requires
        sig_no_match::<A, R>(c.methods@, name),
        c.parent is Some,
    ensures
        c.find_method_spec::<A, R>(name) == c.parent.unwrap().find_method_spec::<A, R>(name),
{
    assert(!sig_ambiguous::<A, R>(c.methods@, name));
    assert(!(exists|j: int| sig_unique_at::<A, R>(c.methods@, name, j)));
}

/// Law: static search never returns an instance method, whatever its name
/// and signature.
pub proof fn lemma_static_exclusivity<A: Parameters, R: Return>(c: Il2CppClass, name: Seq<char>)
    ensures
        c.find_method_static_spec::<A, R>(name) matches Some(m) ==> m.is_static,
{
}

/// Law: callee-perspective search never returns a method whose
/// static/instance-ness disagrees with the receiver capability searched
/// with, even when name, parameters and return all match.
pub proof fn lemma_this_parameter_gating<T: ThisParameter, P: Parameters, R: Return>(
    c: Il2CppClass,
    name: Seq<char>,
)
    ensures
        c.find_method_callee_spec::<T, P, R>(name) matches Some(m) ==> T::matches_spec(m),
    decreases c,
{
    if !callee_ambiguous::<T, P, R>(c.methods@, name) && !(exists|j: int|
        callee_unique_at::<T, P, R>(c.methods@, name, j))  {
        match c.parent {
            Some(p) => {
                lemma_this_parameter_gating::<T, P, R>(*p, name);
            },
            None => {},
        }
    }
}

} // verus!
