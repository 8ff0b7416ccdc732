use libil2cpp::{
    Builtin, FieldInfo, Il2CppAssembly, Il2CppClass, Il2CppDomain, Il2CppImage, Il2CppObject,
    Il2CppType, MethodInfo, ParameterInfo,
};

fn int_ty() -> Il2CppType {
    Il2CppType::Builtin(Builtin::Int)
}

fn bool_ty() -> Il2CppType {
    Il2CppType::Builtin(Builtin::Bool)
}

fn void_ty() -> Il2CppType {
    Il2CppType::Builtin(Builtin::Void)
}

fn method(name: &str, is_static: bool, param_tys: Vec<Il2CppType>, ret: Il2CppType) -> MethodInfo {
    let parameters = param_tys
        .into_iter()
        .enumerate()
        .map(|(position, ty)| ParameterInfo {
            name: String::new(),
            position,
            ty,
        })
        .collect();
    MethodInfo {
        name: name.to_string(),
        is_static,
        parameters,
        return_ty: ret,
    }
}

fn class(
    namespace: &str,
    name: &str,
    parent: Option<Il2CppClass>,
    methods: Vec<MethodInfo>,
    fields: Vec<FieldInfo>,
) -> Il2CppClass {
    Il2CppClass {
        namespace: namespace.to_string(),
        name: name.to_string(),
        parent: parent.map(Box::new),
        methods,
        fields,
        interfaces: vec![],
        nested_types: vec![],
    }
}

#[test]
fn unique_match_resolves() {
    let c = class(
        "Bar",
        "Foo",
        None,
        vec![method("M", false, vec![int_ty()], int_ty())],
        vec![],
    );
    let m = c.find_method::<(i32,), i32>("M").expect("M should resolve");
    assert_eq!(m.name(), "M");
}

#[test]
fn ambiguity_at_a_level_is_fatal() {
    // Two identical candidates on the class itself; a perfectly good
    // candidate on the parent must not rescue the lookup.
    let p = class(
        "",
        "Parent",
        None,
        vec![method("M", false, vec![int_ty()], int_ty())],
        vec![],
    );
    let c = class(
        "",
        "Child",
        Some(p),
        vec![
            method("M", false, vec![int_ty()], int_ty()),
            method("M", false, vec![int_ty()], int_ty()),
        ],
        vec![],
    );
    assert!(c.find_method::<(i32,), i32>("M").is_none());
}

#[test]
fn zero_matches_defers_to_parent() {
    // The child's same-named method has a different, non-matching
    // signature, so the parent's method is still found.
    let p = class(
        "",
        "Parent",
        None,
        vec![method("M", false, vec![int_ty()], int_ty())],
        vec![],
    );
    let c = class(
        "",
        "Child",
        Some(p),
        vec![method("M", false, vec![bool_ty()], int_ty())],
        vec![],
    );
    let m = c.find_method::<(i32,), i32>("M").expect("parent M should be found");
    assert!(matches!(
        m.parameters()[0].ty,
        Il2CppType::Builtin(Builtin::Int)
    ));
}

#[test]
fn closest_level_wins() {
    // Both levels declare a matching method; the child's own wins.
    let p = class(
        "",
        "Parent",
        None,
        vec![method("M", true, vec![int_ty()], int_ty())],
        vec![],
    );
    let c = class(
        "",
        "Child",
        Some(p),
        vec![method("M", false, vec![int_ty()], int_ty())],
        vec![],
    );
    let m = c.find_method::<(i32,), i32>("M").expect("M should resolve");
    assert!(!m.is_static);
}

#[test]
fn static_search_never_returns_instance_method() {
    let c = class(
        "",
        "Foo",
        None,
        vec![method("M", false, vec![int_ty()], int_ty())],
        vec![],
    );
    assert!(c.find_method::<(i32,), i32>("M").is_some());
    assert!(c.find_method_static::<(i32,), i32>("M").is_none());
}

#[test]
fn static_search_ignores_the_hierarchy() {
    let p = class(
        "",
        "Parent",
        None,
        vec![method("S", true, vec![], int_ty())],
        vec![],
    );
    let c = class("", "Child", Some(p), vec![], vec![]);
    assert!(c.find_method_static::<(), i32>("S").is_none());
    assert!(c.find_method::<(), i32>("S").is_some());
}

#[test]
fn callee_search_gates_on_receiver_capability() {
    let stat = class(
        "",
        "Foo",
        None,
        vec![method("S", true, vec![], void_ty())],
        vec![],
    );
    let inst = class(
        "",
        "Goo",
        None,
        vec![method("I", false, vec![], void_ty())],
        vec![],
    );
    // A static receiver capability accepts only static methods.
    assert!(stat.find_method_callee::<(), (), ()>("S").is_some());
    assert!(inst.find_method_callee::<(), (), ()>("I").is_none());
    // An instance receiver capability accepts only instance methods.
    assert!(inst
        .find_method_callee::<Option<Il2CppObject>, (), ()>("I")
        .is_some());
    assert!(stat
        .find_method_callee::<Option<Il2CppObject>, (), ()>("S")
        .is_none());
}

#[test]
fn unchecked_search_goes_by_arity() {
    let c = class(
        "",
        "Foo",
        None,
        vec![
            method("M", false, vec![int_ty()], int_ty()),
            method("M", false, vec![int_ty(), int_ty()], int_ty()),
        ],
        vec![],
    );
    let one = c.find_method_unchecked("M", 1).expect("arity 1 resolves");
    assert_eq!(one.parameters().len(), 1);
    let two = c.find_method_unchecked("M", 2).expect("arity 2 resolves");
    assert_eq!(two.parameters().len(), 2);
    assert!(c.find_method_unchecked("M", 3).is_none());
}

#[test]
fn unchecked_search_fails_on_same_arity_overloads() {
    let c = class(
        "",
        "Foo",
        None,
        vec![
            method("M", false, vec![int_ty()], int_ty()),
            method("M", false, vec![bool_ty()], int_ty()),
        ],
        vec![],
    );
    assert!(c.find_method_unchecked("M", 1).is_none());
}

#[test]
fn field_search_walks_the_hierarchy() {
    let p = class(
        "",
        "Parent",
        None,
        vec![],
        vec![FieldInfo {
            name: "health".to_string(),
            ty: int_ty(),
            slot: 0,
        }],
    );
    let c = class(
        "",
        "Child",
        Some(p),
        vec![],
        vec![FieldInfo {
            name: "mana".to_string(),
            ty: int_ty(),
            slot: 1,
        }],
    );
    assert_eq!(c.find_field_unchecked("mana").expect("own field").slot, 1);
    assert_eq!(
        c.find_field_unchecked("health").expect("inherited field").slot,
        0
    );
    assert!(c.find_field_unchecked("stamina").is_none());
}

#[test]
fn field_search_takes_the_first_at_a_level() {
    let c = class(
        "",
        "Foo",
        None,
        vec![],
        vec![
            FieldInfo {
                name: "f".to_string(),
                ty: int_ty(),
                slot: 0,
            },
            FieldInfo {
                name: "f".to_string(),
                ty: bool_ty(),
                slot: 1,
            },
        ],
    );
    assert_eq!(c.find_field_unchecked("f").expect("first wins").slot, 0);
}

#[test]
fn hierarchy_yields_depth_plus_one_entries() {
    let root = class("System", "Object", None, vec![], vec![]);
    let mid = class("", "Mid", Some(root), vec![], vec![]);
    let leaf = class("", "Leaf", Some(mid), vec![], vec![]);
    let mut it = leaf.hierarchy();
    let mut seen: Vec<String> = Vec::new();
    while let Some(c) = it.next() {
        seen.push(c.name().to_string());
    }
    assert_eq!(seen, vec!["Leaf".to_string(), "Mid".to_string(), "Object".to_string()]);
    assert!(it.next().is_none());
    // The traversal is restartable: a fresh cursor starts over.
    let mut again = leaf.hierarchy();
    assert_eq!(again.next().expect("starts with the class itself").name(), "Leaf");
}

#[test]
fn find_skips_assemblies_without_an_image() {
    let foo = class("Bar", "Foo", None, vec![], vec![]);
    let domain = Il2CppDomain {
        assemblies: vec![
            Il2CppAssembly { image: None },
            Il2CppAssembly {
                image: Some(Il2CppImage { classes: vec![foo] }),
            },
        ],
    };
    let found = Il2CppClass::find(&domain, "Bar", "Foo").expect("Foo should be found");
    assert_eq!(found.name(), "Foo");
    assert_eq!(found.namespace(), "Bar");
    assert!(Il2CppClass::find(&domain, "Bar", "Missing").is_none());
    assert!(Il2CppClass::find(&domain, "Other", "Foo").is_none());
}

#[test]
fn assignability_walks_the_parent_chain() {
    let base = class("System", "Object", None, vec![], vec![]);
    let derived = class("Bar", "Foo", Some(base), vec![], vec![]);
    let base_again = class("System", "Object", None, vec![], vec![]);
    assert!(base_again.is_assignable_from(&derived));
    assert!(derived.is_assignable_from(&derived));
    assert!(!derived.is_assignable_from(&base_again));
}

#[test]
fn assignability_sees_implemented_interfaces() {
    let disposable = class("System", "IDisposable", None, vec![], vec![]);
    let mut foo = class("Bar", "Foo", None, vec![], vec![]);
    foo.interfaces.push(disposable);
    let disposable_again = class("System", "IDisposable", None, vec![], vec![]);
    assert!(disposable_again.is_assignable_from(&foo));
    assert!(!foo.is_assignable_from(&disposable_again));
    assert_eq!(foo.implemented_interfaces().len(), 1);
    assert!(foo.nested_types().is_empty());
}
