use jvm_obfuscation_mappings::descriptor::{ClassName, Type};

#[test]
fn from_binary_name_replaces_dots() {
    let name = ClassName::from_binary_name("java.lang.String");
    assert_eq!(name.internal_name(), "java/lang/String");
}

#[test]
fn from_internal_name_keeps_name_verbatim() {
    let name = ClassName::from_internal_name("java/lang/String");
    assert_eq!(name.internal_name(), "java/lang/String");
    assert_eq!(name.binary_name(), "java.lang.String");
}

#[test]
fn binary_name_round_trip() {
    let name = ClassName::from_binary_name("com.example.Outer$Inner");
    assert_eq!(name.internal_name(), "com/example/Outer$Inner");
    assert_eq!(name.binary_name(), "com.example.Outer$Inner");
}

#[test]
fn internal_name_round_trip() {
    let name = ClassName::from_internal_name("com/example/Outer$Inner");
    assert_eq!(
        ClassName::from_binary_name(&name.binary_name()).internal_name(),
        "com/example/Outer$Inner"
    );
}

#[test]
fn malformed_names_are_preserved() {
    let name = ClassName::from_internal_name("not a..class//name");
    assert_eq!(name.internal_name(), "not a..class//name");
    assert_eq!(name.binary_name(), "not a..class..name");
}

#[test]
fn empty_name() {
    let name = ClassName::from_binary_name("");
    assert_eq!(name.internal_name(), "");
    assert_eq!(name.binary_name(), "");
}

#[test]
fn to_type_wraps_into_object() {
    let name = ClassName::from_internal_name("java/lang/String");
    assert_eq!(name.to_type(), Type::Object(name));
}

#[test]
fn object_descriptor() {
    let string = Type::Object(ClassName::from_binary_name("java.lang.String"));
    assert_eq!(&string.descriptor(), "Ljava/lang/String;");
}

#[test]
fn primitive_descriptors() {
    assert_eq!(&Type::Byte.descriptor(), "B");
    assert_eq!(&Type::Short.descriptor(), "S");
    assert_eq!(&Type::Int.descriptor(), "I");
    assert_eq!(&Type::Long.descriptor(), "J");
    assert_eq!(&Type::Float.descriptor(), "F");
    assert_eq!(&Type::Double.descriptor(), "D");
    assert_eq!(&Type::Boolean.descriptor(), "Z");
    assert_eq!(&Type::Char.descriptor(), "C");
    assert_eq!(&Type::Void.descriptor(), "V");
}

#[test]
fn array_descriptor() {
    let ints = Type::Int.array();
    assert_eq!(&ints.descriptor(), "[I");
    let strings = ClassName::from_binary_name("java.lang.String")
        .to_type()
        .array()
        .array();
    assert_eq!(&strings.descriptor(), "[[Ljava/lang/String;");
}

#[test]
fn java_names() {
    let string = Type::Object(ClassName::from_internal_name("java/lang/String"));
    assert_eq!(&string.java_name(), "java.lang.String");
    assert_eq!(&Type::Byte.java_name(), "byte");
    assert_eq!(&Type::Short.java_name(), "short");
    assert_eq!(&Type::Int.java_name(), "int");
    assert_eq!(&Type::Long.java_name(), "long");
    assert_eq!(&Type::Float.java_name(), "float");
    assert_eq!(&Type::Double.java_name(), "double");
    assert_eq!(&Type::Boolean.java_name(), "boolean");
    assert_eq!(&Type::Char.java_name(), "char");
    assert_eq!(&Type::Void.java_name(), "void");
}

#[test]
fn array_java_name_appends_brackets() {
    let string = ClassName::from_binary_name("java.lang.String").to_type();
    assert_eq!(string.array().java_name(), String::from("java.lang.String[]"));
    assert_eq!(
        string.array().array().array().java_name(),
        String::from("java.lang.String[][][]")
    );
}

#[test]
fn array_depth_counts_layers() {
    let string = ClassName::from_binary_name("java.lang.String").to_type();
    assert_eq!(string.array_depth(), 0);
    assert_eq!(string.array().array_depth(), 1);
    assert_eq!(string.array().array().array().array_depth(), 3);
    assert_eq!(Type::Void.array_depth(), 0);
}

#[test]
fn types_are_plain_values() {
    let t = Type::Int.array();
    let copy = t.clone();
    assert_eq!(t, copy);
    // array() does not mutate the receiver
    let deeper = t.array();
    assert_eq!(t.array_depth(), 1);
    assert_eq!(deeper.array_depth(), 2);
}
