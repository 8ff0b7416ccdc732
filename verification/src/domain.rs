//! The process-wide class registry.
//!
//! The runtime exposes loaded code as a domain holding assemblies, each
//! with an optional image of classes. Class lookup scans assemblies in
//! order, skips assemblies without an image, and resolves a class by
//! namespace and name within each image.

use vstd::prelude::*;

use crate::class::Il2CppClass;

verus! {

/// A loaded image: the classes an assembly contributes.
pub struct Il2CppImage {
    /// Classes of the image, in declaration order.
    pub classes: Vec<Il2CppClass>,
}

/// A loaded assembly; some assemblies carry no image.
pub struct Il2CppAssembly {
    /// The assembly's image, if it has one.
    pub image: Option<Il2CppImage>,
}

/// The process-wide domain: every loaded assembly, read-only after load.
pub struct Il2CppDomain {
    /// Loaded assemblies, in load order.
    pub assemblies: Vec<Il2CppAssembly>,
}

/// Whether a class carries the given namespace and name.
pub open spec fn class_named(c: Il2CppClass, namespace: Seq<char>, name: Seq<char>) -> bool {
    c.namespace@ == namespace && c.name@ == name
}

/// The first class of `cs` carrying the given namespace and name.
pub open spec fn find_in_classes(cs: Seq<Il2CppClass>, ns: Seq<char>, n: Seq<char>) -> Option<
    Il2CppClass,
>
    decreases cs.len(),
{
    if cs.len() == 0 {
        None
    } else if class_named(cs[0], ns, n) {
        Some(cs[0])
    } else {
        find_in_classes(cs.drop_first(), ns, n)
    }
}

/// The first class found scanning assemblies in order, skipping assemblies
/// without an image.
pub open spec fn find_in_assemblies(
    asms: Seq<Il2CppAssembly>,
    ns: Seq<char>,
    n: Seq<char>,
) -> Option<Il2CppClass>
    decreases asms.len(),
{
    if asms.len() == 0 {
        None
    } else {
        let rest = find_in_assemblies(asms.drop_first(), ns, n);
        match asms[0].image {
            None => rest,
            Some(img) => match find_in_classes(img.classes@, ns, n) {
                Some(c) => Some(c),
                None => rest,
            },
        }
    }
}

impl Il2CppClass {
    /// Find a class by namespace and name among the domain's loaded
    /// assemblies, scanning in load order and skipping assemblies without
    /// an image.
    pub fn find<'a>(domain: &'a Il2CppDomain, namespace: &str, name: &str) -> (r: Option<
        &'a Il2CppClass,
    >)
        ensures
            match (r, find_in_assemblies(domain.assemblies@, namespace@, name@)) {
                (Some(c), Some(sc)) => *c == sc,
                (None, None) => true,
                _ => false,
            },
    {
        let ns_key: String = namespace.to_owned();
        let n_key: String = name.to_owned();
        let acount: usize = domain.assemblies.len();
        let mut ai: usize = 0;
        proof {
            assert(domain.assemblies@.skip(0) =~= domain.assemblies@);
        }
        while ai < acount
            invariant
                acount == domain.assemblies@.len(),
                ns_key@ == namespace@,
                n_key@ == name@,
                ai <= acount,
                find_in_assemblies(domain.assemblies@, namespace@, name@) == find_in_assemblies(
                    domain.assemblies@.skip(ai as int),
                    namespace@,
                    name@,
                ),
            decreases acount - ai,
        {
            proof {
                assert(domain.assemblies@.skip(ai as int).drop_first() =~= domain.assemblies@.skip(
                    ai as int + 1,
                ));
                assert(domain.assemblies@.skip(ai as int)[0] == domain.assemblies@[ai as int]);
            }
            let assembly = &domain.assemblies[ai];
            match &assembly.image {
                None => {},
                Some(img) => {
                    let ccount: usize = img.classes.len();
                    let mut ci: usize = 0;
                    proof {
                        assert(img.classes@.skip(0) =~= img.classes@);
                    }
                    while ci < ccount
                        invariant
                            acount == domain.assemblies@.len(),
                            ai < acount,
                            domain.assemblies@[ai as int].image == Some(*img),
                            ccount == img.classes@.len(),
                            ns_key@ == namespace@,
                            n_key@ == name@,
                            ci <= ccount,
                            find_in_assemblies(domain.assemblies@, namespace@, name@)
                                == find_in_assemblies(
                                domain.assemblies@.skip(ai as int),
                                namespace@,
                                name@,
                            ),
                            find_in_classes(img.classes@, namespace@, name@) == find_in_classes(
                                img.classes@.skip(ci as int),
                                namespace@,
                                name@,
                            ),
                        decreases ccount - ci,
                    {
                        proof {
                            assert(img.classes@.skip(ci as int).drop_first() =~= img.classes@.skip(
                                ci as int + 1,
                            ));
                            assert(img.classes@.skip(ci as int)[0] == img.classes@[ci as int]);
                        }
                        let c = &img.classes[ci];
                        if c.namespace == ns_key && c.name == n_key {
                            proof {
                                assert(domain.assemblies@.skip(ai as int).drop_first()
                                    =~= domain.assemblies@.skip(ai as int + 1));
                                assert(domain.assemblies@.skip(ai as int)[0]
                                    == domain.assemblies@[ai as int]);
                            }
                            return Some(c);
                        }
                        ci += 1;
                    }
                    proof {
                        assert(img.classes@.skip(ccount as int) =~= Seq::<Il2CppClass>::empty());
                    }
                },
            }
            ai += 1;
        }
        proof {
            assert(domain.assemblies@.skip(acount as int) =~= Seq::<Il2CppAssembly>::empty());
        }
        None
    }
}

} // verus!
