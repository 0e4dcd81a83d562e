use jvm_backend::types::{
    method_descriptor, rust_ty_to_jvm_descriptor, FloatWidth, IntWidth, Pointee, SourceType,
};

fn descriptor(t: SourceType) -> String {
    rust_ty_to_jvm_descriptor(&t)
}

#[test]
fn primitive_descriptors() {
    assert_eq!(descriptor(SourceType::Bool), "Z");
    assert_eq!(descriptor(SourceType::Char), "C");
    assert_eq!(descriptor(SourceType::Int(IntWidth::W8)), "B");
    assert_eq!(descriptor(SourceType::Int(IntWidth::W16)), "S");
    assert_eq!(descriptor(SourceType::Int(IntWidth::W32)), "I");
    assert_eq!(descriptor(SourceType::Int(IntWidth::W64)), "J");
}

#[test]
fn signed_and_unsigned_map_identically() {
    for w in [
        IntWidth::W8,
        IntWidth::W16,
        IntWidth::W32,
        IntWidth::W64,
        IntWidth::W128,
        IntWidth::WPointer,
    ] {
        assert_eq!(
            descriptor(SourceType::Int(w)),
            descriptor(SourceType::Uint(w))
        );
    }
    assert_eq!(descriptor(SourceType::Uint(IntWidth::W32)), "I");
    assert_eq!(descriptor(SourceType::Uint(IntWidth::W8)), "B");
}

#[test]
fn pointer_width_integers_narrow_to_int() {
    assert_eq!(descriptor(SourceType::Int(IntWidth::WPointer)), "I");
    assert_eq!(descriptor(SourceType::Uint(IntWidth::WPointer)), "I");
}

#[test]
fn int128_falls_back_to_big_integer() {
    assert_eq!(
        descriptor(SourceType::Int(IntWidth::W128)),
        "Ljava/math/BigInteger;"
    );
    assert_eq!(
        descriptor(SourceType::Uint(IntWidth::W128)),
        "Ljava/math/BigInteger;"
    );
}

#[test]
fn float_descriptors_with_narrowing_fallbacks() {
    assert_eq!(descriptor(SourceType::Float(FloatWidth::W32)), "F");
    assert_eq!(descriptor(SourceType::Float(FloatWidth::W64)), "D");
    assert_eq!(descriptor(SourceType::Float(FloatWidth::W16)), "F");
    assert_eq!(descriptor(SourceType::Float(FloatWidth::W128)), "D");
}

#[test]
fn string_and_reference_descriptors() {
    assert_eq!(descriptor(SourceType::Str), "Ljava/lang/String;");
    assert_eq!(
        descriptor(SourceType::Ref(Pointee::StrData)),
        "Ljava/lang/String;"
    );
    assert_eq!(
        descriptor(SourceType::Ref(Pointee::OtherData)),
        "Ljava/lang/Object;"
    );
    assert_eq!(
        descriptor(SourceType::RawPtr(Pointee::StrData)),
        "Ljava/lang/String;"
    );
}

#[test]
fn tuple_never_and_unrecognized_descriptors() {
    assert_eq!(descriptor(SourceType::Tuple(0)), "V");
    assert_eq!(descriptor(SourceType::Tuple(2)), "Ljava/lang/Object;");
    assert_eq!(descriptor(SourceType::Never), "V");
    assert_eq!(descriptor(SourceType::Other), "Ljava/lang/Object;");
}

#[test]
fn main_with_no_parameters_gets_entry_point_descriptor() {
    let name = String::from("main");
    let params: Vec<SourceType> = Vec::new();
    let d = method_descriptor(&name, &params, &SourceType::Tuple(0));
    assert_eq!(d, "([Ljava/lang/String;)V");
    // The declared return type is ignored entirely.
    let d = method_descriptor(&name, &params, &SourceType::Int(IntWidth::W32));
    assert_eq!(d, "([Ljava/lang/String;)V");
    let d = method_descriptor(&name, &params, &SourceType::Str);
    assert_eq!(d, "([Ljava/lang/String;)V");
}

#[test]
fn main_with_parameters_is_not_special() {
    let name = String::from("main");
    let params = vec![SourceType::Int(IntWidth::W32)];
    let d = method_descriptor(&name, &params, &SourceType::Int(IntWidth::W32));
    assert_eq!(d, "(I)I");
}

#[test]
fn ordinary_method_descriptors() {
    let name = String::from("add");
    let params = vec![SourceType::Int(IntWidth::W32), SourceType::Int(IntWidth::W32)];
    let d = method_descriptor(&name, &params, &SourceType::Int(IntWidth::W32));
    assert_eq!(d, "(II)I");

    let name = String::from("greet");
    let params = vec![SourceType::Bool, SourceType::Str];
    let d = method_descriptor(&name, &params, &SourceType::Tuple(0));
    assert_eq!(d, "(ZLjava/lang/String;)V");

    let name = String::from("nullary");
    let params: Vec<SourceType> = Vec::new();
    let d = method_descriptor(&name, &params, &SourceType::Int(IntWidth::W64));
    assert_eq!(d, "()J");
}
