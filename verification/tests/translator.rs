use jvm_backend::frame::{max_locals, max_stack};
use jvm_backend::instruction::Instruction;
use jvm_backend::ir::{BasicBlock, BinOp, FunctionUnit, Statement, Terminator};
use jvm_backend::translate::{translate_function, MirToBytecodeVisitor};
use jvm_backend::types::{IntWidth, SourceType};

fn int32() -> SourceType {
    SourceType::Int(IntWidth::W32)
}

fn add_function() -> FunctionUnit {
    FunctionUnit {
        name: String::from("add"),
        params: vec![int32(), int32()],
        ret: int32(),
        blocks: vec![BasicBlock {
            statements: vec![Statement::AssignBinaryOp(BinOp::Add)],
            terminator: Terminator::Return,
        }],
    }
}

#[test]
fn add_of_two_ints_lowers_to_fixed_sequence() {
    let code = translate_function(&add_function());
    assert_eq!(
        code,
        vec![
            Instruction::Iload0,
            Instruction::Iload1,
            Instruction::Iadd,
            Instruction::Ireturn,
        ]
    );
    assert_eq!(max_stack(&code), 2);
    assert_eq!(max_locals(2), 3);
}

#[test]
fn sub_uses_isub() {
    let mut f = add_function();
    f.blocks[0].statements = vec![Statement::AssignBinaryOp(BinOp::SubWithOverflow)];
    let code = translate_function(&f);
    assert_eq!(
        code,
        vec![
            Instruction::Iload0,
            Instruction::Iload1,
            Instruction::Isub,
            Instruction::Ireturn,
        ]
    );
}

#[test]
fn unsupported_statements_and_operations_are_elided() {
    let mut f = add_function();
    f.blocks[0].statements = vec![
        Statement::Unsupported,
        Statement::AssignBinaryOp(BinOp::Unsupported),
    ];
    let code = translate_function(&f);
    assert_eq!(code, vec![Instruction::Ireturn]);
}

#[test]
fn unsupported_terminator_emits_nothing() {
    let mut f = add_function();
    f.blocks[0].terminator = Terminator::Unsupported;
    let code = translate_function(&f);
    assert_eq!(
        code,
        vec![Instruction::Iload0, Instruction::Iload1, Instruction::Iadd]
    );
}

#[test]
fn return_instruction_follows_return_descriptor() {
    let mut f = add_function();
    f.blocks[0].statements = Vec::new();

    f.ret = SourceType::Tuple(0);
    assert_eq!(translate_function(&f), vec![Instruction::Return]);

    f.ret = SourceType::Bool;
    assert_eq!(translate_function(&f), vec![Instruction::Ireturn]);

    f.ret = SourceType::Str;
    assert_eq!(translate_function(&f), vec![Instruction::Areturn]);

    // `long` maps to `J`, which is neither in the integer-return family
    // nor a reference descriptor: the translator defaults to `return`.
    f.ret = SourceType::Int(IntWidth::W64);
    assert_eq!(translate_function(&f), vec![Instruction::Return]);

    // 128-bit integers map to a reference descriptor.
    f.ret = SourceType::Int(IntWidth::W128);
    assert_eq!(translate_function(&f), vec![Instruction::Areturn]);
}

#[test]
fn blocks_are_visited_in_declared_order() {
    let f = FunctionUnit {
        name: String::from("two_blocks"),
        params: vec![int32(), int32()],
        ret: int32(),
        blocks: vec![
            BasicBlock {
                statements: vec![Statement::AssignBinaryOp(BinOp::Sub)],
                terminator: Terminator::Unsupported,
            },
            BasicBlock {
                statements: Vec::new(),
                terminator: Terminator::Return,
            },
        ],
    };
    let code = translate_function(&f);
    assert_eq!(
        code,
        vec![
            Instruction::Iload0,
            Instruction::Iload1,
            Instruction::Isub,
            Instruction::Ireturn,
        ]
    );
}

#[test]
fn visitor_appends_to_its_buffer() {
    let mut visitor = MirToBytecodeVisitor::new(Vec::new(), "add", int32());
    visitor.visit_statement(&Statement::AssignBinaryOp(BinOp::Add));
    visitor.visit_terminator(&Terminator::Return);
    assert_eq!(
        visitor.method_bytecode_instructions,
        vec![
            Instruction::Iload0,
            Instruction::Iload1,
            Instruction::Iadd,
            Instruction::Ireturn,
        ]
    );
}

#[test]
fn stack_simulation_edges() {
    assert_eq!(max_stack(&Vec::new()), 0);
    // A lone return pops from an empty stack: clamped to zero.
    assert_eq!(max_stack(&vec![Instruction::Ireturn]), 0);
    // A lone add still pushes its result.
    assert_eq!(max_stack(&vec![Instruction::Iadd]), 1);
    // Two statements in a row: depth reaches three.
    let code = vec![
        Instruction::Iload0,
        Instruction::Iload1,
        Instruction::Iadd,
        Instruction::Iload0,
        Instruction::Iload1,
        Instruction::Iadd,
        Instruction::Ireturn,
    ];
    assert_eq!(max_stack(&code), 3);
}
