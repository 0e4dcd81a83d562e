use jvm_backend::classfile::{ClassFile, CodeAttribute, Method};
use jvm_backend::error::ClassFileError;
use jvm_backend::instruction::Instruction;
use jvm_backend::pool::ConstantPool;

#[test]
fn indices_start_at_one_and_increase_strictly() {
    let mut pool = ConstantPool::new();
    let a = pool.add_utf8("alpha").unwrap();
    let b = pool.add_utf8("beta").unwrap();
    let c = pool.add_class(a).unwrap();
    assert_eq!(a, 1);
    assert_eq!(b, 2);
    assert_eq!(c, 3);
    assert_eq!(pool.len(), 3);
}

#[test]
fn same_text_twice_yields_two_entries() {
    let mut pool = ConstantPool::new();
    let a = pool.add_utf8("Code").unwrap();
    let b = pool.add_utf8("Code").unwrap();
    assert_ne!(a, b);
    assert_eq!(pool.len(), 2);
}

#[test]
fn class_entry_requires_an_earlier_utf8_entry() {
    let mut pool = ConstantPool::new();
    assert_eq!(pool.add_class(1), Err(ClassFileError::InvalidPoolIndex));
    let a = pool.add_utf8("Thing").unwrap();
    let c = pool.add_class(a).unwrap();
    // A class entry is not a UTF-8 entry.
    assert_eq!(pool.add_class(c), Err(ClassFileError::InvalidPoolIndex));
    // Index 0 never exists.
    assert_eq!(pool.add_class(0), Err(ClassFileError::InvalidPoolIndex));
}

#[test]
fn name_and_type_field_and_method_references() {
    let mut pool = ConstantPool::new();
    let class_name = pool.add_utf8("Holder").unwrap();
    let class_idx = pool.add_class(class_name).unwrap();
    let field_name = pool.add_utf8("value").unwrap();
    let field_desc = pool.add_utf8("I").unwrap();
    let nat = pool.add_name_and_type(field_name, field_desc).unwrap();
    assert_eq!(nat, 5);
    let fieldref = pool.add_fieldref(class_idx, nat).unwrap();
    assert_eq!(fieldref, 6);
    let methodref = pool.add_methodref(class_idx, nat).unwrap();
    assert_eq!(methodref, 7);

    // Swapped tags are rejected.
    assert_eq!(
        pool.add_name_and_type(class_idx, field_desc),
        Err(ClassFileError::InvalidPoolIndex)
    );
    assert_eq!(
        pool.add_fieldref(nat, class_idx),
        Err(ClassFileError::InvalidPoolIndex)
    );
    assert_eq!(
        pool.add_methodref(field_name, nat),
        Err(ClassFileError::InvalidPoolIndex)
    );
}

#[test]
fn utf8_entry_longer_than_its_length_field_is_rejected() {
    let mut pool = ConstantPool::new();
    let long = "x".repeat(0x10000);
    assert_eq!(pool.add_utf8(&long), Err(ClassFileError::Utf8TooLong));
    // One byte shorter still fits.
    let edge = "x".repeat(0xFFFF);
    assert_eq!(pool.add_utf8(&edge), Ok(1));
}

#[test]
fn pool_overflows_at_its_sixteen_bit_count() {
    let mut pool = ConstantPool::new();
    for _ in 0..0xFFFE {
        pool.add_utf8("e").unwrap();
    }
    assert_eq!(pool.len(), 0xFFFE);
    assert_eq!(pool.add_utf8("one too many"), Err(ClassFileError::PoolOverflow));
    assert_eq!(pool.add_class(1), Err(ClassFileError::PoolOverflow));
}

#[test]
fn verify_accepts_well_formed_and_rejects_dangling_references() {
    let mut pool = ConstantPool::new();
    let object_utf8 = pool.add_utf8("java/lang/Object").unwrap();
    let super_class = pool.add_class(object_utf8).unwrap();
    let this_utf8 = pool.add_utf8("Checked").unwrap();
    let this_class = pool.add_class(this_utf8).unwrap();
    let cf = ClassFile {
        constant_pool: pool,
        this_class,
        super_class,
        methods: Vec::new(),
    };
    assert!(cf.verify());

    // this_class naming a UTF-8 entry instead of a class entry.
    let mut broken = cf.clone();
    broken.this_class = 1;
    assert!(!broken.verify());

    // A method whose name index points past the pool.
    let mut broken = cf.clone();
    broken.methods.push(Method {
        access_flags: 0x0009,
        name_index: 99,
        descriptor_index: 1,
        code: CodeAttribute {
            name_index: 1,
            max_stack: 0,
            max_locals: 1,
            code: Vec::new(),
        },
    });
    assert!(!broken.verify());
}

#[test]
fn minimal_class_file_layout() {
    // A class with an empty method table, assembled by hand.
    let mut pool = ConstantPool::new();
    let object_utf8 = pool.add_utf8("java/lang/Object").unwrap();
    let super_class = pool.add_class(object_utf8).unwrap();
    let this_utf8 = pool.add_utf8("Tiny").unwrap();
    let this_class = pool.add_class(this_utf8).unwrap();
    let cf = ClassFile {
        constant_pool: pool,
        this_class,
        super_class,
        methods: Vec::new(),
    };
    let bytes = cf.to_bytes();

    let mut expected: Vec<u8> = Vec::new();
    expected.extend_from_slice(&[0xCA, 0xFE, 0xBA, 0xBE]); // magic
    expected.extend_from_slice(&[0x00, 0x00, 0x00, 0x34]); // minor 0, major 52
    expected.extend_from_slice(&[0x00, 0x05]); // pool count: 4 entries + 1
    expected.extend_from_slice(&[0x01, 0x00, 0x10]); // Utf8, 16 bytes
    expected.extend_from_slice(b"java/lang/Object");
    expected.extend_from_slice(&[0x07, 0x00, 0x01]); // Class -> #1
    expected.extend_from_slice(&[0x01, 0x00, 0x04]); // Utf8, 4 bytes
    expected.extend_from_slice(b"Tiny");
    expected.extend_from_slice(&[0x07, 0x00, 0x03]); // Class -> #3
    expected.extend_from_slice(&[0x00, 0x21]); // ACC_PUBLIC | ACC_SUPER
    expected.extend_from_slice(&[0x00, 0x04]); // this_class
    expected.extend_from_slice(&[0x00, 0x02]); // super_class
    expected.extend_from_slice(&[0x00, 0x00]); // interfaces
    expected.extend_from_slice(&[0x00, 0x00]); // fields
    expected.extend_from_slice(&[0x00, 0x00]); // methods
    expected.extend_from_slice(&[0x00, 0x00]); // class attributes
    assert_eq!(bytes, expected);
}

#[test]
fn method_code_attribute_layout() {
    let mut pool = ConstantPool::new();
    let object_utf8 = pool.add_utf8("java/lang/Object").unwrap();
    let super_class = pool.add_class(object_utf8).unwrap();
    let this_utf8 = pool.add_utf8("One").unwrap();
    let this_class = pool.add_class(this_utf8).unwrap();
    let code_idx = pool.add_utf8("Code").unwrap();
    let name_idx = pool.add_utf8("f").unwrap();
    let desc_idx = pool.add_utf8("()V").unwrap();
    let method = Method {
        access_flags: 0x0009,
        name_index: name_idx,
        descriptor_index: desc_idx,
        code: CodeAttribute {
            name_index: code_idx,
            max_stack: 0,
            max_locals: 1,
            code: vec![Instruction::Return],
        },
    };
    let cf = ClassFile {
        constant_pool: pool,
        this_class,
        super_class,
        methods: vec![method],
    };
    let bytes = cf.to_bytes();

    // The method table is the tail of the file: flags, name, descriptor,
    // one attribute, then the Code attribute whose length field covers
    // the 12 fixed bytes after it plus one code byte.
    let tail = &bytes[bytes.len() - 31..];
    let expected: Vec<u8> = vec![
        0x00, 0x01, // method count
        0x00, 0x09, // ACC_PUBLIC | ACC_STATIC
        0x00, 0x06, // name index
        0x00, 0x07, // descriptor index
        0x00, 0x01, // one attribute
        0x00, 0x05, // attribute name: "Code"
        0x00, 0x00, 0x00, 0x0D, // attribute length 13
        0x00, 0x00, // max_stack
        0x00, 0x01, // max_locals
        0x00, 0x00, 0x00, 0x01, // code length 1
        0xB1, // return
        0x00, 0x00, // empty exception table
        0x00, 0x00, // no nested attributes
        0x00, 0x00, // no class-level attributes
    ];
    assert_eq!(tail, &expected[..]);
}
