use libil2cpp::{
    Builtin, FieldInfo, Il2CppClass, Il2CppException, Il2CppObject, Il2CppType, InvokeOutcome,
    MethodInfo, ParameterInfo, Parameter, Return, ThisParameter, Type, Value,
};

fn builtin(b: Builtin) -> Il2CppType {
    Il2CppType::Builtin(b)
}

fn param(ty: Il2CppType, position: usize) -> ParameterInfo {
    ParameterInfo {
        name: String::new(),
        position,
        ty,
    }
}

fn add_method() -> MethodInfo {
    MethodInfo {
        name: "Add".to_string(),
        is_static: true,
        parameters: vec![param(builtin(Builtin::Int), 0), param(builtin(Builtin::Int), 1)],
        return_ty: builtin(Builtin::Int),
    }
}

#[test]
fn add_invocation_returns_five() {
    let foo = Il2CppClass {
        namespace: "Bar".to_string(),
        name: "Foo".to_string(),
        parent: None,
        methods: vec![add_method()],
        fields: vec![],
        interfaces: vec![],
        nested_types: vec![],
    };
    let m = foo
        .find_method_static::<(i32, i32), i32>("Add")
        .expect("Add must resolve uniquely");
    assert!(m.is_static);
    let actual = m.marshal_arguments((2i32, 3i32));
    // Stand in for the native primitive: add the two marshalled integers.
    let sum = match (&actual[0], &actual[1]) {
        (Value::Int(a), Value::Int(b)) => a + b,
        _ => panic!("arguments marshalled with the wrong tags"),
    };
    let outcome = InvokeOutcome {
        result: Value::Int(sum),
        exception: None,
    };
    let r: Result<i32, Il2CppException> = m.complete_invoke(outcome);
    assert_eq!(r.ok(), Some(5));
}

#[test]
fn thrown_exception_takes_the_error_path() {
    let m = add_method();
    let outcome = InvokeOutcome {
        // The return slot is deliberately meaningless; it must never be
        // interpreted when the exception slot is set.
        result: Value::Void,
        exception: Some(Il2CppException {
            class_name: "System.DivideByZeroException".to_string(),
            message: "boom".to_string(),
        }),
    };
    let r: Result<i32, Il2CppException> = m.complete_invoke(outcome);
    match r {
        Err(e) => {
            assert_eq!(e.class_name, "System.DivideByZeroException");
            assert_eq!(e.message, "boom");
        }
        Ok(_) => panic!("a thrown exception must not produce a success value"),
    }
}

#[test]
fn field_round_trip_bool() {
    let f = FieldInfo {
        name: "flag".to_string(),
        ty: builtin(Builtin::Bool),
        slot: 0,
    };
    let mut obj = Il2CppObject {
        fields: vec![Value::Bool(false)],
    };
    f.store(&mut obj, true);
    let back: bool = f.load(&mut obj);
    assert!(back);
}

#[test]
fn field_round_trip_byte() {
    let f = FieldInfo {
        name: "b".to_string(),
        ty: builtin(Builtin::Byte),
        slot: 0,
    };
    let mut obj = Il2CppObject {
        fields: vec![Value::Byte(0)],
    };
    f.store(&mut obj, 0xa5u8);
    let back: u8 = f.load(&mut obj);
    assert_eq!(back, 0xa5);
}

#[test]
fn field_round_trip_int() {
    let f = FieldInfo {
        name: "n".to_string(),
        ty: builtin(Builtin::Int),
        slot: 1,
    };
    let mut obj = Il2CppObject {
        fields: vec![Value::Bool(false), Value::Int(0)],
    };
    f.store(&mut obj, -41i32);
    let back: i32 = f.load(&mut obj);
    assert_eq!(back, -41);
}

#[test]
fn field_round_trip_long() {
    let f = FieldInfo {
        name: "n".to_string(),
        ty: builtin(Builtin::Long),
        slot: 0,
    };
    let mut obj = Il2CppObject {
        fields: vec![Value::Long(0)],
    };
    f.store(&mut obj, -5_000_000_000i64);
    let back: i64 = f.load(&mut obj);
    assert_eq!(back, -5_000_000_000);
}

#[test]
fn field_round_trip_ulong() {
    let f = FieldInfo {
        name: "n".to_string(),
        ty: builtin(Builtin::ULong),
        slot: 0,
    };
    let mut obj = Il2CppObject {
        fields: vec![Value::ULong(0)],
    };
    f.store(&mut obj, u64::MAX);
    let back: u64 = f.load(&mut obj);
    assert_eq!(back, u64::MAX);
}

#[test]
fn field_round_trip_sbyte() {
    let f = FieldInfo {
        name: "n".to_string(),
        ty: builtin(Builtin::SByte),
        slot: 0,
    };
    let mut obj = Il2CppObject {
        fields: vec![Value::SByte(0)],
    };
    f.store(&mut obj, -7i8);
    let back: i8 = f.load(&mut obj);
    assert_eq!(back, -7);
}

#[test]
fn field_round_trip_short() {
    let f = FieldInfo {
        name: "n".to_string(),
        ty: builtin(Builtin::Short),
        slot: 0,
    };
    let mut obj = Il2CppObject {
        fields: vec![Value::Short(0)],
    };
    f.store(&mut obj, -30_000i16);
    let back: i16 = f.load(&mut obj);
    assert_eq!(back, -30_000);
}

#[test]
fn field_round_trip_ushort() {
    let f = FieldInfo {
        name: "n".to_string(),
        ty: builtin(Builtin::UShort),
        slot: 0,
    };
    let mut obj = Il2CppObject {
        fields: vec![Value::UShort(0)],
    };
    f.store(&mut obj, 60_000u16);
    let back: u16 = f.load(&mut obj);
    assert_eq!(back, 60_000);
}

#[test]
fn field_round_trip_uint() {
    let f = FieldInfo {
        name: "n".to_string(),
        ty: builtin(Builtin::UInt),
        slot: 0,
    };
    let mut obj = Il2CppObject {
        fields: vec![Value::UInt(0)],
    };
    f.store(&mut obj, 4_000_000_000u32);
    let back: u32 = f.load(&mut obj);
    assert_eq!(back, 4_000_000_000);
}

#[test]
fn field_round_trip_char() {
    let f = FieldInfo {
        name: "c".to_string(),
        ty: builtin(Builtin::Char),
        slot: 0,
    };
    let mut obj = Il2CppObject {
        fields: vec![Value::Char(' ')],
    };
    f.store(&mut obj, 'Ω');
    let back: char = f.load(&mut obj);
    assert_eq!(back, 'Ω');
}

#[test]
fn field_round_trip_string() {
    let f = FieldInfo {
        name: "s".to_string(),
        ty: builtin(Builtin::Str),
        slot: 0,
    };
    let mut obj = Il2CppObject {
        fields: vec![Value::Str(String::new())],
    };
    f.store(&mut obj, "hello".to_string());
    let back: String = f.load(&mut obj);
    assert_eq!(back, "hello");
}

#[test]
fn unchecked_field_access_round_trips() {
    let f = FieldInfo {
        name: "n".to_string(),
        ty: builtin(Builtin::Int),
        slot: 0,
    };
    let mut obj = Il2CppObject {
        fields: vec![Value::Int(0)],
    };
    f.store_unchecked(&mut obj, 7i32);
    let back: i32 = f.load_unchecked(&mut obj);
    assert_eq!(back, 7);
}

#[test]
fn parameter_matching_is_exact_per_kind() {
    assert!(<i32 as Parameter>::matches(&builtin(Builtin::Int)));
    assert!(!<i32 as Parameter>::matches(&builtin(Builtin::Long)));
    assert!(!<i32 as Parameter>::matches(&builtin(Builtin::Bool)));
    assert!(<bool as Return>::matches(&builtin(Builtin::Bool)));
    assert!(!<bool as Return>::matches(&builtin(Builtin::Void)));
    assert!(<() as Return>::matches(&builtin(Builtin::Void)));
    assert!(!<() as Return>::matches(&builtin(Builtin::Int)));
    let class_ty = Il2CppType::Class {
        namespace: "Bar".to_string(),
        name: "Foo".to_string(),
    };
    assert!(!<i32 as Parameter>::matches(&class_ty));
}

#[test]
fn value_conversion_round_trips() {
    assert_eq!(<i32 as Type>::from_value(&17i32.into_value()), Some(17));
    assert_eq!(<u64 as Type>::from_value(&9u64.into_value()), Some(9));
    assert_eq!(<bool as Type>::from_value(&true.into_value()), Some(true));
    assert_eq!(
        <String as Type>::from_value(&"xyz".to_string().into_value()),
        Some("xyz".to_string())
    );
    // A foreign tag decodes to nothing.
    assert_eq!(<i32 as Type>::from_value(&Value::Bool(true)), None);
}

#[test]
fn value_fits_checks_tags() {
    assert!(Value::Int(3).fits(&builtin(Builtin::Int)));
    assert!(!Value::Int(3).fits(&builtin(Builtin::Bool)));
    let class_ty = Il2CppType::Class {
        namespace: "Bar".to_string(),
        name: "Foo".to_string(),
    };
    assert!(Value::Obj(None).fits(&class_ty));
    assert!(Value::Obj(Some(4)).fits(&builtin(Builtin::Object)));
    assert!(!Value::Int(3).fits(&class_ty));
}

#[test]
fn receiver_conversions_respect_nullability() {
    // The absent receiver of a static call.
    assert!(<() as ThisParameter>::into_actual(()).is_none());
    assert_eq!(<() as ThisParameter>::from_actual(None), Some(()));
    // The non-null receiver form turns a null reference into an explicit
    // decoding failure rather than a value.
    assert!(<Il2CppObject as ThisParameter>::from_actual(None).is_none());
    let got = <Il2CppObject as ThisParameter>::from_actual(Some(Il2CppObject {
        fields: vec![],
    }));
    assert!(got.is_some());
    // The nullable form accepts the null reference as a value.
    let nullable = <Option<Il2CppObject> as ThisParameter>::from_actual(None);
    assert!(matches!(nullable, Some(None)));
}

#[test]
fn marshalling_preserves_order_and_tags() {
    let m = MethodInfo {
        name: "Mix".to_string(),
        is_static: true,
        parameters: vec![
            param(builtin(Builtin::Bool), 0),
            param(builtin(Builtin::Byte), 1),
            param(builtin(Builtin::Long), 2),
        ],
        return_ty: builtin(Builtin::Void),
    };
    let actual = m.marshal_arguments((true, 9u8, -3i64));
    assert_eq!(actual.len(), 3);
    assert!(matches!(actual[0], Value::Bool(true)));
    assert!(matches!(actual[1], Value::Byte(9)));
    assert!(matches!(actual[2], Value::Long(-3)));
}

#[test]
fn display_name_qualifies_with_namespace() {
    let qualified = Il2CppClass {
        namespace: "Bar".to_string(),
        name: "Foo".to_string(),
        parent: None,
        methods: vec![],
        fields: vec![],
        interfaces: vec![],
        nested_types: vec![],
    };
    assert_eq!(qualified.display_name(), "Bar.Foo");
    let bare = Il2CppClass {
        namespace: String::new(),
        name: "Foo".to_string(),
        parent: None,
        methods: vec![],
        fields: vec![],
        interfaces: vec![],
        nested_types: vec![],
    };
    assert_eq!(bare.display_name(), "Foo");
}

#[test]
fn class_type_descriptors_carry_the_identity() {
    let c = Il2CppClass {
        namespace: "Bar".to_string(),
        name: "Foo".to_string(),
        parent: None,
        methods: vec![],
        fields: vec![],
        interfaces: vec![],
        nested_types: vec![],
    };
    match c.this_arg_ty() {
        Il2CppType::Class { namespace, name } => {
            assert_eq!(namespace, "Bar");
            assert_eq!(name, "Foo");
        }
        Il2CppType::Builtin(_) => panic!("a class's receiver type is a class descriptor"),
    }
    assert!(c.byval_arg_ty().is_class());
    assert!(!builtin(Builtin::Int).is_class());
    assert!(builtin(Builtin::Int).is_builtin(Builtin::Int));
    assert!(!builtin(Builtin::Int).is_builtin(Builtin::Long));
}
