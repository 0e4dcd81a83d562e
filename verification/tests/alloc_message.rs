use jvm_backend::alloc_hook::custom_alloc_error_hook;

#[test]
fn message_names_the_requested_size() {
    assert_eq!(
        custom_alloc_error_hook(0),
        "Memory allocation failed: 0 bytes"
    );
    assert_eq!(
        custom_alloc_error_hook(7),
        "Memory allocation failed: 7 bytes"
    );
    assert_eq!(
        custom_alloc_error_hook(12345),
        "Memory allocation failed: 12345 bytes"
    );
    assert_eq!(
        custom_alloc_error_hook(1000000),
        "Memory allocation failed: 1000000 bytes"
    );
}
