use jvm_backend::codegen::{compile_unit, find_instance_by_name};
use jvm_backend::error::ClassFileError;
use jvm_backend::ir::{BasicBlock, BinOp, FunctionUnit, Statement, Terminator};
use jvm_backend::types::{IntWidth, Pointee, SourceType};

fn int32() -> SourceType {
    SourceType::Int(IntWidth::W32)
}

fn add_function() -> FunctionUnit {
    FunctionUnit {
        name: String::from("add"),
        params: vec![int32(), int32()],
        ret: int32(),
        blocks: vec![BasicBlock {
            statements: vec![Statement::AssignBinaryOp(BinOp::Add)],
            terminator: Terminator::Return,
        }],
    }
}

#[test]
fn class_file_begins_with_magic_and_java8_version() {
    let bytes = compile_unit("adder", &vec![add_function()]).unwrap();
    assert_eq!(
        &bytes[..8],
        &[0xCA, 0xFE, 0xBA, 0xBE, 0x00, 0x00, 0x00, 0x34]
    );
}

#[test]
fn one_function_unit_serializes_exactly() {
    let bytes = compile_unit("adder", &vec![add_function()]).unwrap();

    let mut expected: Vec<u8> = Vec::new();
    expected.extend_from_slice(&[0xCA, 0xFE, 0xBA, 0xBE]); // magic
    expected.extend_from_slice(&[0x00, 0x00, 0x00, 0x34]); // minor 0, major 52
    expected.extend_from_slice(&[0x00, 0x08]); // pool count: 7 entries + 1
    expected.extend_from_slice(&[0x01, 0x00, 0x10]);
    expected.extend_from_slice(b"java/lang/Object"); // #1
    expected.extend_from_slice(&[0x07, 0x00, 0x01]); // #2: super class
    expected.extend_from_slice(&[0x01, 0x00, 0x05]);
    expected.extend_from_slice(b"adder"); // #3
    expected.extend_from_slice(&[0x07, 0x00, 0x03]); // #4: this class
    expected.extend_from_slice(&[0x01, 0x00, 0x04]);
    expected.extend_from_slice(b"Code"); // #5
    expected.extend_from_slice(&[0x01, 0x00, 0x03]);
    expected.extend_from_slice(b"add"); // #6
    expected.extend_from_slice(&[0x01, 0x00, 0x05]);
    expected.extend_from_slice(b"(II)I"); // #7
    expected.extend_from_slice(&[0x00, 0x21]); // ACC_PUBLIC | ACC_SUPER
    expected.extend_from_slice(&[0x00, 0x04]); // this_class
    expected.extend_from_slice(&[0x00, 0x02]); // super_class
    expected.extend_from_slice(&[0x00, 0x00]); // interfaces
    expected.extend_from_slice(&[0x00, 0x00]); // fields
    expected.extend_from_slice(&[0x00, 0x01]); // one method
    expected.extend_from_slice(&[0x00, 0x09]); // ACC_PUBLIC | ACC_STATIC
    expected.extend_from_slice(&[0x00, 0x06]); // name "add"
    expected.extend_from_slice(&[0x00, 0x07]); // descriptor "(II)I"
    expected.extend_from_slice(&[0x00, 0x01]); // one attribute
    expected.extend_from_slice(&[0x00, 0x05]); // attribute name "Code"
    expected.extend_from_slice(&[0x00, 0x00, 0x00, 0x10]); // length 12 + 4
    expected.extend_from_slice(&[0x00, 0x02]); // max_stack
    expected.extend_from_slice(&[0x00, 0x03]); // max_locals
    expected.extend_from_slice(&[0x00, 0x00, 0x00, 0x04]); // code length
    expected.extend_from_slice(&[0x1A, 0x1B, 0x60, 0xAC]); // iload_0 iload_1 iadd ireturn
    expected.extend_from_slice(&[0x00, 0x00]); // empty exception table
    expected.extend_from_slice(&[0x00, 0x00]); // no nested attributes
    expected.extend_from_slice(&[0x00, 0x00]); // no class attributes

    assert_eq!(bytes, expected);
}

#[test]
fn main_function_gets_entry_point_descriptor_in_pool() {
    let f = FunctionUnit {
        name: String::from("main"),
        params: Vec::new(),
        ret: SourceType::Tuple(0),
        blocks: vec![BasicBlock {
            statements: Vec::new(),
            terminator: Terminator::Return,
        }],
    };
    let bytes = compile_unit("app", &vec![f]).unwrap();
    let needle = b"([Ljava/lang/String;)V";
    let found = bytes
        .windows(needle.len())
        .any(|window| window == &needle[..]);
    assert!(found);
}

#[test]
fn functions_keep_their_declared_order() {
    let mut first = add_function();
    first.name = String::from("first");
    let mut second = add_function();
    second.name = String::from("second");
    let bytes = compile_unit("pair", &vec![first, second]).unwrap();
    let pos_first = bytes
        .windows(5)
        .position(|window| window == b"first")
        .unwrap();
    let pos_second = bytes
        .windows(6)
        .position(|window| window == b"second")
        .unwrap();
    assert!(pos_first < pos_second);
}

#[test]
fn raw_pointer_to_non_string_data_is_rejected() {
    let mut f = add_function();
    f.params[1] = SourceType::RawPtr(Pointee::OtherData);
    let r = compile_unit("bad", &vec![f]);
    assert_eq!(r, Err(ClassFileError::UnsupportedRawPointer));

    let mut f = add_function();
    f.ret = SourceType::RawPtr(Pointee::OtherData);
    let r = compile_unit("bad", &vec![f]);
    assert_eq!(r, Err(ClassFileError::UnsupportedRawPointer));
}

#[test]
fn overlong_function_name_is_rejected() {
    let mut f = add_function();
    f.name = "f".repeat(0x10000);
    let r = compile_unit("bad", &vec![f]);
    assert_eq!(r, Err(ClassFileError::Utf8TooLong));
}

#[test]
fn too_many_parameters_are_rejected() {
    // A parameter list long enough to overflow the 16-bit locals field
    // overflows the descriptor's UTF-8 length field first: every
    // parameter contributes at least one descriptor character.
    let mut f = add_function();
    f.params = vec![int32(); 0xFFFF];
    let r = compile_unit("bad", &vec![f]);
    assert_eq!(r, Err(ClassFileError::Utf8TooLong));
}

#[test]
fn deep_operand_stack_overflows_the_stack_field() {
    // Every recognized binary-operation statement nets one extra value
    // on the simulated stack, so enough of them push the peak depth
    // past the 16-bit field.
    let mut f = add_function();
    f.blocks[0].statements = vec![Statement::AssignBinaryOp(BinOp::Add); 0x10000];
    let r = compile_unit("bad", &vec![f]);
    assert_eq!(r, Err(ClassFileError::FrameTooLarge));
}

#[test]
fn too_many_functions_overflow_the_pool() {
    let mut functions = Vec::new();
    for i in 0..33000 {
        functions.push(FunctionUnit {
            name: format!("f{}", i),
            params: Vec::new(),
            ret: SourceType::Tuple(0),
            blocks: Vec::new(),
        });
    }
    let r = compile_unit("big", &functions);
    assert_eq!(r, Err(ClassFileError::PoolOverflow));
}

#[test]
fn find_instance_by_name_returns_the_first_match() {
    let mut first = add_function();
    first.name = String::from("alpha");
    let mut second = add_function();
    second.name = String::from("beta");
    let functions = vec![first, second];
    assert_eq!(find_instance_by_name(&functions, "beta"), Some(1));
    assert_eq!(find_instance_by_name(&functions, "alpha"), Some(0));
    assert_eq!(find_instance_by_name(&functions, "gamma"), None);
}

#[test]
fn empty_unit_still_serializes() {
    let bytes = compile_unit("empty", &Vec::new()).unwrap();
    assert_eq!(
        &bytes[..8],
        &[0xCA, 0xFE, 0xBA, 0xBE, 0x00, 0x00, 0x00, 0x34]
    );
    // Five base entries, count six, and no methods.
    assert_eq!(&bytes[8..10], &[0x00, 0x06]);
    assert_eq!(&bytes[bytes.len() - 4..], &[0x00, 0x00, 0x00, 0x00]);
}
