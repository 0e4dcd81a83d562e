use jvm_backend::error::JarError;
use jvm_backend::jar::{
    class_data_has_main, class_file_base_name, create_manifest_content, main_class_fqcn,
    plan_jar_entry_names, sanitize_class_file_name,
};

#[test]
fn manifest_without_main_class() {
    let m = create_manifest_content(None);
    assert_eq!(m, "Manifest-Version: 1.0\r\nCreated-By: java-linker-rs\r\n\r\n");
}

#[test]
fn manifest_with_main_class() {
    let m = create_manifest_content(Some("adder"));
    assert_eq!(
        m,
        "Manifest-Version: 1.0\r\nCreated-By: java-linker-rs\r\nMain-Class: adder\r\n\r\n"
    );
}

#[test]
fn sanitize_strips_hex_suffix() {
    assert_eq!(sanitize_class_file_name("Foo-1a2b3c.class"), "Foo.class");
    assert_eq!(sanitize_class_file_name("adder-0f.class"), "adder.class");
}

#[test]
fn sanitize_keeps_names_without_a_valid_suffix() {
    assert_eq!(sanitize_class_file_name("Foo.class"), "Foo.class");
    // An empty hex run is not a suffix.
    assert_eq!(sanitize_class_file_name("x-.class"), "x-.class");
    // Uppercase hex digits do not match.
    assert_eq!(sanitize_class_file_name("x-ABC.class"), "x-ABC.class");
    // No `.class` extension, nothing to strip.
    assert_eq!(sanitize_class_file_name("Foo-1a2b3c"), "Foo-1a2b3c");
    assert_eq!(sanitize_class_file_name("main"), "main");
}

#[test]
fn sanitize_splits_at_the_first_valid_dash() {
    // `b-1f` after the first dash is not all hex, so the second dash wins.
    assert_eq!(sanitize_class_file_name("a-b-1f.class"), "a-b.class");
    // The run after the first dash contains another dash, so only the
    // last suffix is stripped.
    assert_eq!(sanitize_class_file_name("a-1f-1f.class"), "a-1f.class");
}

#[test]
fn base_name_takes_the_part_after_the_last_slash() {
    assert_eq!(class_file_base_name("out/debug/Foo.class"), "Foo.class");
    assert_eq!(class_file_base_name("Foo.class"), "Foo.class");
    assert_eq!(class_file_base_name("a/b/"), "");
}

#[test]
fn fqcn_drops_suffix_and_extension() {
    assert_eq!(main_class_fqcn("Foo-1a2b3c.class"), "Foo");
    assert_eq!(main_class_fqcn("Foo.class"), "Foo");
    assert_eq!(main_class_fqcn("Foo"), "Foo");
    // Every trailing extension goes, and path separators become dots.
    assert_eq!(main_class_fqcn("Foo.class.class"), "Foo");
    assert_eq!(main_class_fqcn("com/example/Foo.class"), "com.example.Foo");
}

#[test]
fn entry_point_detection_needs_name_and_descriptor() {
    let mut with_both: Vec<u8> = Vec::new();
    with_both.extend_from_slice(b"\xCA\xFE\xBA\xBEmain junk ([Ljava/lang/String;)V tail");
    assert!(class_data_has_main(&with_both));

    let only_name = b"main but no descriptor".to_vec();
    assert!(!class_data_has_main(&only_name));

    let only_descriptor = b"([Ljava/lang/String;)V but no entry point".to_vec();
    assert!(!class_data_has_main(&only_descriptor));

    let neither = b"\xCA\xFE\xBA\xBE nothing here".to_vec();
    assert!(!class_data_has_main(&neither));
}

#[test]
fn entry_names_are_planned_in_order() {
    let inputs = vec![
        String::from("out/Foo-1a2b3c.class"),
        String::from("out/Bar-04dd.class"),
        String::from("plain.txt"),
    ];
    let names = plan_jar_entry_names(&inputs).unwrap();
    assert_eq!(
        names,
        vec![
            String::from("Foo.class"),
            String::from("Bar.class"),
            String::from("plain.txt"),
        ]
    );
}

#[test]
fn colliding_entry_names_are_detected() {
    // Two class files that differ only in their disambiguation suffix
    // would land on the same archive entry: a collision, not a silent
    // overwrite.
    let inputs = vec![
        String::from("Foo-1a2b3c.class"),
        String::from("Foo-4d5e6f.class"),
    ];
    assert_eq!(
        plan_jar_entry_names(&inputs),
        Err(JarError::DuplicateEntryName)
    );
}
