use jvm_obfuscation_mappings::format::Tiny2Writer;
use jvm_obfuscation_mappings::visitor::{MappingFlag, MappingVisitor, VisitError};
use jvm_obfuscation_mappings::MappedElementKind;

#[test]
fn writer_declares_its_flags() {
    let writer = Tiny2Writer::new(String::new());
    let flags = writer.flags();
    assert!(flags.contains(MappingFlag::NeedsHeaderMetadata));
    assert!(flags.contains(MappingFlag::NeedsUniqueness));
    assert!(flags.contains(MappingFlag::NeedsSrcFieldDesc));
    assert!(flags.contains(MappingFlag::NeedsSrcMethodDesc));
    assert!(!flags.contains(MappingFlag::NeedsMultiplePasses));
    assert!(!flags.contains(MappingFlag::NeedsDstFieldDesc));
    assert!(!flags.contains(MappingFlag::NeedsDstMethodDesc));
}

#[test]
fn header_line() {
    let mut writer = Tiny2Writer::new(String::new());
    writer
        .visit_namespaces("named", &["intermediary", "official"])
        .unwrap();
    assert_eq!(
        writer.into_inner(),
        "tiny\tv2\t0\tnamed\tintermediary\tofficial\n"
    );
}

#[test]
fn header_line_without_destinations() {
    let mut writer = Tiny2Writer::new(String::new());
    writer.visit_namespaces("named", &[]).unwrap();
    assert_eq!(writer.into_inner(), "tiny\tv2\t0\tnamed\n");
}

#[test]
fn one_class_one_field_one_comment() {
    // One class "a" renamed to "b", one field (descriptor "I", name "f")
    // renamed to "g", and a trailing comment "note" on the field.
    let mut writer = Tiny2Writer::new(String::new());
    writer.visit_namespaces("named", &["intermediary"]).unwrap();
    assert!(writer.visit_class("a").unwrap());
    writer
        .visit_dst_name(MappedElementKind::Class, 0, "b")
        .unwrap();
    assert!(writer
        .visit_element_content(MappedElementKind::Class)
        .unwrap());
    assert!(writer.visit_field("f", Some("I")).unwrap());
    writer
        .visit_dst_name(MappedElementKind::Field, 0, "g")
        .unwrap();
    assert!(writer
        .visit_element_content(MappedElementKind::Field)
        .unwrap());
    writer
        .visit_comment(MappedElementKind::Field, "note")
        .unwrap();
    assert!(writer.visit_end().unwrap());
    assert_eq!(
        writer.into_inner(),
        "tiny\tv2\t0\tnamed\tintermediary\nc\ta\tb\n\tf\tI\tf\tg\n\t\tc\tnote\n"
    );
}

#[test]
fn missing_field_descriptor_fails() {
    let mut writer = Tiny2Writer::new(String::new());
    writer.visit_namespaces("a", &["b"]).unwrap();
    assert_eq!(writer.visit_field("f", None), Err(VisitError::MissingSrcDesc));
}

#[test]
fn missing_method_descriptor_fails() {
    let mut writer = Tiny2Writer::new(String::new());
    writer.visit_namespaces("a", &["b"]).unwrap();
    assert_eq!(
        writer.visit_method("m", None),
        Err(VisitError::MissingSrcDesc)
    );
}

#[test]
fn missing_destination_names_become_empty_fields() {
    let mut writer = Tiny2Writer::new(String::new());
    writer.visit_namespaces("named", &["x", "y", "z"]).unwrap();
    assert!(writer.visit_class("a").unwrap());
    // only the middle namespace gets a name
    writer
        .visit_dst_name(MappedElementKind::Class, 1, "mid")
        .unwrap();
    assert!(writer
        .visit_element_content(MappedElementKind::Class)
        .unwrap());
    assert_eq!(
        writer.into_inner(),
        "tiny\tv2\t0\tnamed\tx\ty\tz\nc\ta\t\tmid\t\n"
    );
}

#[test]
fn scratch_buffer_is_cleared_after_flush() {
    let mut writer = Tiny2Writer::new(String::new());
    writer.visit_namespaces("named", &["intermediary"]).unwrap();
    assert!(writer.visit_class("a").unwrap());
    writer
        .visit_dst_name(MappedElementKind::Class, 0, "b")
        .unwrap();
    assert!(writer
        .visit_element_content(MappedElementKind::Class)
        .unwrap());
    // the next class sets no destination name: the slot must be empty again
    assert!(writer.visit_class("c").unwrap());
    assert!(writer
        .visit_element_content(MappedElementKind::Class)
        .unwrap());
    assert_eq!(
        writer.into_inner(),
        "tiny\tv2\t0\tnamed\tintermediary\nc\ta\tb\nc\tc\t\n"
    );
}

#[test]
fn destination_namespace_out_of_range_fails() {
    let mut writer = Tiny2Writer::new(String::new());
    writer.visit_namespaces("named", &["intermediary"]).unwrap();
    assert!(writer.visit_class("a").unwrap());
    assert_eq!(
        writer.visit_dst_name(MappedElementKind::Class, 1, "b"),
        Err(VisitError::DstNamespaceOutOfRange)
    );
}

#[test]
fn method_with_arg_and_var() {
    let mut writer = Tiny2Writer::new(String::new());
    writer.visit_namespaces("named", &["intermediary"]).unwrap();
    assert!(writer.visit_class("a").unwrap());
    assert!(writer
        .visit_element_content(MappedElementKind::Class)
        .unwrap());
    assert!(writer.visit_method("m", Some("()V")).unwrap());
    assert!(writer
        .visit_element_content(MappedElementKind::Method)
        .unwrap());
    assert!(writer.visit_method_arg(0, 1, Some("x")).unwrap());
    assert!(writer
        .visit_element_content(MappedElementKind::MethodArg)
        .unwrap());
    assert!(writer.visit_method_var(2, 3, 4, Some("y")).unwrap());
    assert!(writer
        .visit_element_content(MappedElementKind::MethodVar)
        .unwrap());
    assert_eq!(
        writer.into_inner(),
        "tiny\tv2\t0\tnamed\tintermediary\nc\ta\t\n\tm\t()V\tm\t\n\t\tp\t1\tx\t\n\t\tv\t3\t4\t2\ty\t\n"
    );
}

#[test]
fn arg_without_source_name_leaves_the_field_empty() {
    let mut writer = Tiny2Writer::new(String::new());
    writer.visit_namespaces("named", &[]).unwrap();
    assert!(writer.visit_method_arg(0, 7, None).unwrap());
    assert!(writer
        .visit_element_content(MappedElementKind::MethodArg)
        .unwrap());
    assert_eq!(writer.into_inner(), "tiny\tv2\t0\tnamed\n\t\tp\t7\t\n");
}

#[test]
fn lvt_row_index_is_clamped_to_minus_one() {
    let mut writer = Tiny2Writer::new(String::new());
    writer.visit_namespaces("named", &[]).unwrap();
    assert!(writer.visit_method_var(-5, 1, 2, None).unwrap());
    assert!(writer
        .visit_element_content(MappedElementKind::MethodVar)
        .unwrap());
    assert_eq!(writer.into_inner(), "tiny\tv2\t0\tnamed\n\t\tv\t1\t2\t-1\t\n");
}

#[test]
fn negative_indices_are_rendered_in_decimal() {
    let mut writer = Tiny2Writer::new(String::new());
    writer.visit_namespaces("named", &[]).unwrap();
    assert!(writer.visit_method_var(-1, -12, -2147483648, None).unwrap());
    assert!(writer
        .visit_element_content(MappedElementKind::MethodVar)
        .unwrap());
    assert_eq!(
        writer.into_inner(),
        "tiny\tv2\t0\tnamed\n\t\tv\t-12\t-2147483648\t-1\t\n"
    );
}

#[test]
fn comment_indentation_follows_the_element_level() {
    let mut writer = Tiny2Writer::new(String::new());
    writer.visit_namespaces("named", &[]).unwrap();
    writer
        .visit_comment(MappedElementKind::Class, "on a class")
        .unwrap();
    writer
        .visit_comment(MappedElementKind::Method, "on a method")
        .unwrap();
    writer
        .visit_comment(MappedElementKind::MethodVar, "on a var")
        .unwrap();
    assert_eq!(
        writer.into_inner(),
        "tiny\tv2\t0\tnamed\n\tc\ton a class\n\t\tc\ton a method\n\t\t\tc\ton a var\n"
    );
}

#[test]
fn metadata_and_dst_desc_write_nothing() {
    let mut writer = Tiny2Writer::new(String::new());
    writer.visit_namespaces("named", &["x"]).unwrap();
    writer.visit_metadata("key", "value").unwrap();
    writer
        .visit_dst_desc(MappedElementKind::Field, 0, "J")
        .unwrap();
    assert_eq!(writer.into_inner(), "tiny\tv2\t0\tnamed\tx\n");
}

#[test]
fn writer_appends_to_the_given_buffer() {
    let mut writer = Tiny2Writer::new(String::from("before\n"));
    writer.visit_namespaces("named", &[]).unwrap();
    assert_eq!(writer.into_inner(), "before\ntiny\tv2\t0\tnamed\n");
}

