//! The IR-to-bytecode translator: a visitor that walks a function's basic
//! blocks in declared order and lowers each recognized statement and
//! terminator to JVM instructions.
//!
//! A recognized binary addition or subtraction loads local slots 0 and 1
//! and applies the integer operation; the operand places of the statement
//! are not consulted, so this is only faithful for a two-parameter
//! function whose arguments sit in the first two slots. A return
//! terminator emits the return instruction matching the function's
//! declared return descriptor. Every unrecognized shape is elided: no
//! bytecode, no error.

use vstd::prelude::*;
use crate::instruction::Instruction;
use crate::ir::{BasicBlock, BinOp, FunctionUnit, Statement, Terminator};
use crate::types::{spec_descriptor, spec_mappable, FloatWidth, IntWidth, SourceType};

verus! {

/// The instructions a single statement lowers to: a fixed
/// load-load-operate pattern for a recognized binary operation, nothing
/// for anything else.
pub open spec fn spec_statement_instructions(s: Statement) -> Seq<Instruction> {
    match s {
        Statement::AssignBinaryOp(op) => match op {
            BinOp::Add => seq![Instruction::Iload0, Instruction::Iload1, Instruction::Iadd],
            BinOp::AddWithOverflow => seq![
                Instruction::Iload0,
                Instruction::Iload1,
                Instruction::Iadd,
            ],
            BinOp::Sub => seq![Instruction::Iload0, Instruction::Iload1, Instruction::Isub],
            BinOp::SubWithOverflow => seq![
                Instruction::Iload0,
                Instruction::Iload1,
                Instruction::Isub,
            ],
            BinOp::Unsupported => Seq::empty(),
        },
        Statement::Unsupported => Seq::empty(),
    }
}

/// The instructions of a statement list, in order.
pub open spec fn spec_statements_instructions(stmts: Seq<Statement>) -> Seq<Instruction>
    decreases stmts.len(),
{
    if stmts.len() == 0 {
        Seq::empty()
    } else {
        spec_statements_instructions(stmts.drop_last()) + spec_statement_instructions(stmts.last())
    }
}

/// Whether a descriptor belongs to the integer family returned through
/// `ireturn`.
pub open spec fn spec_is_integer_family(d: Seq<char>) -> bool {
    d == "I"@ || d == "F"@ || d == "Z"@ || d == "B"@ || d == "C"@ || d == "S"@
}

/// The return instruction for a return descriptor: `return` for void,
/// `ireturn` for the integer family, `areturn` for a reference type, and
/// `return` as the default for anything else.
pub open spec fn spec_return_instruction(d: Seq<char>) -> Instruction {
    if d == "V"@ {
        Instruction::Return
    } else if spec_is_integer_family(d) {
        Instruction::Ireturn
    } else if d.len() > 0 && d[0] == 'L' {
        Instruction::Areturn
    } else {
        Instruction::Return
    }
}

/// The instructions a terminator lowers to, given the enclosing
/// function's declared return type: one return instruction for `Return`,
/// nothing for anything else.
pub open spec fn spec_terminator_instructions(t: Terminator, ret: SourceType) -> Seq<Instruction> {
    match t {
        Terminator::Return => seq![spec_return_instruction(spec_descriptor(ret))],
        Terminator::Unsupported => Seq::empty(),
    }
}

/// The instructions of one basic block: its statements in order, then its
/// terminator.
pub open spec fn spec_block_instructions(b: BasicBlock, ret: SourceType) -> Seq<Instruction> {
    spec_statements_instructions(b.statements@) + spec_terminator_instructions(b.terminator, ret)
}

/// The instructions of a block list, in declared order.
pub open spec fn spec_blocks_instructions(blocks: Seq<BasicBlock>, ret: SourceType) -> Seq<
    Instruction,
>
    decreases blocks.len(),
{
    if blocks.len() == 0 {
        Seq::empty()
    } else {
        spec_blocks_instructions(blocks.drop_last(), ret) + spec_block_instructions(
            blocks.last(),
            ret,
        )
    }
}

/// The full instruction sequence of one function unit.
pub open spec fn spec_function_instructions(f: FunctionUnit) -> Seq<Instruction> {
    spec_blocks_instructions(f.blocks@, f.ret)
}

/// The return instruction of a mappable source type, read off its
/// descriptor: void and the unmapped `long`/`double` descriptors take
/// `return`, the single-character integer family takes `ireturn`, and
/// every reference descriptor takes `areturn`.
pub proof fn lemma_return_instruction_cases(t: SourceType)
    requires
        spec_mappable(t),
    ensures
        spec_return_instruction(spec_descriptor(t)) == spec_return_instruction_for_type(t),
{
    reveal_strlit("V");
    reveal_strlit("I");
    reveal_strlit("F");
    reveal_strlit("Z");
    reveal_strlit("B");
    reveal_strlit("C");
    reveal_strlit("S");
    reveal_strlit("J");
    reveal_strlit("D");
    reveal_strlit("Ljava/lang/String;");
    reveal_strlit("Ljava/lang/Object;");
    reveal_strlit("Ljava/math/BigInteger;");
    assert("V"@[0] == 'V' && "I"@[0] == 'I' && "F"@[0] == 'F' && "Z"@[0] == 'Z' && "B"@[0] == 'B'
        && "C"@[0] == 'C' && "S"@[0] == 'S' && "J"@[0] == 'J' && "D"@[0] == 'D');
    assert("Ljava/lang/String;"@[0] == 'L' && "Ljava/lang/String;"@.len() == 18);
    assert("Ljava/lang/Object;"@[0] == 'L' && "Ljava/lang/Object;"@.len() == 18);
    assert("Ljava/math/BigInteger;"@[0] == 'L' && "Ljava/math/BigInteger;"@.len() == 22);
    assert("I"@ != "V"@ && "F"@ != "V"@ && "Z"@ != "V"@ && "B"@ != "V"@ && "C"@ != "V"@ && "S"@
        != "V"@);
    assert(spec_return_instruction("Z"@) == Instruction::Ireturn);
    assert(spec_return_instruction("C"@) == Instruction::Ireturn);
    assert(spec_return_instruction("B"@) == Instruction::Ireturn);
    assert(spec_return_instruction("S"@) == Instruction::Ireturn);
    assert(spec_return_instruction("I"@) == Instruction::Ireturn);
    assert(spec_return_instruction("F"@) == Instruction::Ireturn);
    assert("J"@ != "V"@ && !spec_is_integer_family("J"@) && "J"@[0] != 'L');
    assert(spec_return_instruction("J"@) == Instruction::Return);
    assert("D"@ != "V"@ && !spec_is_integer_family("D"@) && "D"@[0] != 'L');
    assert(spec_return_instruction("D"@) == Instruction::Return);
    assert("Ljava/lang/String;"@ != "V"@ && !spec_is_integer_family("Ljava/lang/String;"@));
    assert(spec_return_instruction("Ljava/lang/String;"@) == Instruction::Areturn);
    assert("Ljava/lang/Object;"@ != "V"@ && !spec_is_integer_family("Ljava/lang/Object;"@));
    assert(spec_return_instruction("Ljava/lang/Object;"@) == Instruction::Areturn);
    assert("Ljava/math/BigInteger;"@ != "V"@ && !spec_is_integer_family("Ljava/math/BigInteger;"@));
    assert(spec_return_instruction("Ljava/math/BigInteger;"@) == Instruction::Areturn);
    assert(spec_return_instruction("V"@) == Instruction::Return);
}

/// The return-instruction table by source type, as the translator picks
/// it: the instruction `spec_return_instruction` assigns to the type's
/// descriptor.
pub open spec fn spec_return_instruction_for_type(t: SourceType) -> Instruction {
    match t {
        SourceType::Bool => Instruction::Ireturn,
        SourceType::Char => Instruction::Ireturn,
        SourceType::Int(w) => spec_integer_return_instruction(w),
        SourceType::Uint(w) => spec_integer_return_instruction(w),
        SourceType::Float(w) => match w {
            FloatWidth::W16 => Instruction::Ireturn,
            FloatWidth::W32 => Instruction::Ireturn,
            FloatWidth::W64 => Instruction::Return,
            FloatWidth::W128 => Instruction::Return,
        },
        SourceType::Str => Instruction::Areturn,
        SourceType::Ref(_) => Instruction::Areturn,
        SourceType::RawPtr(_) => Instruction::Areturn,
        SourceType::Tuple(arity) => if arity == 0 {
            Instruction::Return
        } else {
            Instruction::Areturn
        },
        SourceType::Never => Instruction::Return,
        SourceType::Other => Instruction::Areturn,
    }
}

/// The return instruction shared by both signedness variants of an
/// integer width.
pub open spec fn spec_integer_return_instruction(w: IntWidth) -> Instruction {
    match w {
        IntWidth::W8 => Instruction::Ireturn,
        IntWidth::W16 => Instruction::Ireturn,
        IntWidth::W32 => Instruction::Ireturn,
        IntWidth::W64 => Instruction::Return,
        IntWidth::W128 => Instruction::Areturn,
        IntWidth::WPointer => Instruction::Ireturn,
    }
}

/// Picks the return instruction for a declared return type.
fn return_instruction_for(t: &SourceType) -> (r: Instruction)
    requires
        spec_mappable(*t),
    ensures
        r == spec_return_instruction(spec_descriptor(*t)),
{
    proof {
        lemma_return_instruction_cases(*t);
    }
    match t {
        SourceType::Bool => Instruction::Ireturn,
        SourceType::Char => Instruction::Ireturn,
        SourceType::Int(w) => integer_return_instruction_for(w),
        SourceType::Uint(w) => integer_return_instruction_for(w),
        SourceType::Float(w) => match w {
            FloatWidth::W16 => Instruction::Ireturn,
            FloatWidth::W32 => Instruction::Ireturn,
            FloatWidth::W64 => Instruction::Return,
            FloatWidth::W128 => Instruction::Return,
        },
        SourceType::Str => Instruction::Areturn,
        SourceType::Ref(_) => Instruction::Areturn,
        SourceType::RawPtr(_) => Instruction::Areturn,
        SourceType::Tuple(arity) => if *arity == 0 {
            Instruction::Return
        } else {
            Instruction::Areturn
        },
        SourceType::Never => Instruction::Return,
        SourceType::Other => Instruction::Areturn,
    }
}

/// The integer-width half of `return_instruction_for`.
fn integer_return_instruction_for(w: &IntWidth) -> (r: Instruction)
    ensures
        r == spec_integer_return_instruction(*w),
{
    match w {
        IntWidth::W8 => Instruction::Ireturn,
        IntWidth::W16 => Instruction::Ireturn,
        IntWidth::W32 => Instruction::Ireturn,
        IntWidth::W64 => Instruction::Return,
        IntWidth::W128 => Instruction::Areturn,
        IntWidth::WPointer => Instruction::Ireturn,
    }
}

/// The visitor that lowers one function's body. It owns the instruction
/// buffer it fills, the function's name, and the declared return type the
/// terminator lowering consults.
pub struct MirToBytecodeVisitor {
    pub method_bytecode_instructions: Vec<Instruction>,
    pub function_name: String,
    pub return_type: SourceType,
}

impl MirToBytecodeVisitor {
    /// Sets up a visitor over an instruction buffer for one function.
    pub fn new(
        method_bytecode_instructions: Vec<Instruction>,
        function_name: &str,
        return_type: SourceType,
    ) -> (v: Self)
        ensures
            v.method_bytecode_instructions == method_bytecode_instructions,
            v.function_name@ == function_name@,
            v.return_type == return_type,
    {
        MirToBytecodeVisitor {
            method_bytecode_instructions,
            function_name: String::from_str(function_name),
            return_type,
        }
    }

    /// Lowers one statement, appending its instructions to the buffer.
    pub fn visit_statement(&mut self, statement: &Statement)
        ensures
            final(self).method_bytecode_instructions@ == old(
                self,
            ).method_bytecode_instructions@ + spec_statement_instructions(*statement),
            final(self).function_name == old(self).function_name,
            final(self).return_type == old(self).return_type,
    {
        match statement {
            Statement::AssignBinaryOp(op) => match op {
                BinOp::Add | BinOp::AddWithOverflow => {
                    self.method_bytecode_instructions.push(Instruction::Iload0);
                    self.method_bytecode_instructions.push(Instruction::Iload1);
                    self.method_bytecode_instructions.push(Instruction::Iadd);
                    proof {
                        assert(self.method_bytecode_instructions@ =~= old(
                            self,
                        ).method_bytecode_instructions@ + spec_statement_instructions(*statement));
                    }
                },
                BinOp::Sub | BinOp::SubWithOverflow => {
                    self.method_bytecode_instructions.push(Instruction::Iload0);
                    self.method_bytecode_instructions.push(Instruction::Iload1);
                    self.method_bytecode_instructions.push(Instruction::Isub);
                    proof {
                        assert(self.method_bytecode_instructions@ =~= old(
                            self,
                        ).method_bytecode_instructions@ + spec_statement_instructions(*statement));
                    }
                },
                BinOp::Unsupported => {
                    proof {
                        assert(self.method_bytecode_instructions@ =~= old(
                            self,
                        ).method_bytecode_instructions@ + spec_statement_instructions(*statement));
                    }
                },
            },
            Statement::Unsupported => {
                proof {
                    assert(self.method_bytecode_instructions@ =~= old(
                        self,
                    ).method_bytecode_instructions@ + spec_statement_instructions(*statement));
                }
            },
        }
    }

    /// Lowers one terminator: a return instruction chosen from the
    /// declared return descriptor, or nothing.
    pub fn visit_terminator(&mut self, terminator: &Terminator)
        requires
            spec_mappable(old(self).return_type),
        ensures
            final(self).method_bytecode_instructions@ == old(
                self,
            ).method_bytecode_instructions@ + spec_terminator_instructions(
                *terminator,
                old(self).return_type,
            ),
            final(self).function_name == old(self).function_name,
            final(self).return_type == old(self).return_type,
    {
        match terminator {
            Terminator::Return => {
                let r = return_instruction_for(&self.return_type);
                self.method_bytecode_instructions.push(r);
                proof {
                    assert(self.method_bytecode_instructions@ =~= old(
                        self,
                    ).method_bytecode_instructions@ + spec_terminator_instructions(
                        *terminator,
                        old(self).return_type,
                    ));
                }
            },
            Terminator::Unsupported => {
                proof {
                    assert(self.method_bytecode_instructions@ =~= old(
                        self,
                    ).method_bytecode_instructions@ + spec_terminator_instructions(
                        *terminator,
                        old(self).return_type,
                    ));
                }
            },
        }
    }

    /// Lowers one basic block: its statements in order, then its
    /// terminator.
    pub fn visit_basic_block_data(&mut self, data: &BasicBlock)
        requires
            spec_mappable(old(self).return_type),
        ensures
            final(self).method_bytecode_instructions@ == old(
                self,
            ).method_bytecode_instructions@ + spec_block_instructions(*data, old(self).return_type),
            final(self).function_name == old(self).function_name,
            final(self).return_type == old(self).return_type,
    {
        let ghost entry = self.method_bytecode_instructions@;
        let n = data.statements.len();
        let mut i: usize = 0;
        proof {
            assert(data.statements@.take(0) =~= Seq::<Statement>::empty());
            assert(self.method_bytecode_instructions@ =~= entry + spec_statements_instructions(
                data.statements@.take(0),
            ));
        }
        while i < n
            invariant
                n == data.statements@.len(),
                0 <= i <= n,
                self.method_bytecode_instructions@ == entry + spec_statements_instructions(
                    data.statements@.take(i as int),
                ),
                self.function_name == old(self).function_name,
                self.return_type == old(self).return_type,
                spec_mappable(self.return_type),
            decreases n - i,
        {
            self.visit_statement(&data.statements[i]);
            proof {
                assert(data.statements@.take(i + 1).drop_last() =~= data.statements@.take(i as int));
                assert(data.statements@.take(i + 1).last() == data.statements@[i as int]);
                assert(self.method_bytecode_instructions@ =~= entry + spec_statements_instructions(
                    data.statements@.take(i + 1),
                ));
            }
            i = i + 1;
        }
        proof {
            assert(data.statements@.take(n as int) =~= data.statements@);
        }
        self.visit_terminator(&data.terminator);
        proof {
            assert(self.method_bytecode_instructions@ =~= old(
                self,
            ).method_bytecode_instructions@ + spec_block_instructions(*data, old(self).return_type));
        }
    }

    /// Lowers a whole function body, block by block in declared order;
    /// all blocks are visited, including unreachable ones.
    pub fn visit_body(&mut self, body: &Vec<BasicBlock>)
        requires
            spec_mappable(old(self).return_type),
        ensures
            final(self).method_bytecode_instructions@ == old(
                self,
            ).method_bytecode_instructions@ + spec_blocks_instructions(
                body@,
                old(self).return_type,
            ),
            final(self).function_name == old(self).function_name,
            final(self).return_type == old(self).return_type,
    {
        let ghost entry = self.method_bytecode_instructions@;
        let n = body.len();
        let mut i: usize = 0;
        proof {
            assert(body@.take(0) =~= Seq::<BasicBlock>::empty());
            assert(self.method_bytecode_instructions@ =~= entry + spec_blocks_instructions(
                body@.take(0),
                self.return_type,
            ));
        }
        while i < n
            invariant
                n == body@.len(),
                0 <= i <= n,
                self.method_bytecode_instructions@ == entry + spec_blocks_instructions(
                    body@.take(i as int),
                    self.return_type,
                ),
                self.function_name == old(self).function_name,
                self.return_type == old(self).return_type,
                spec_mappable(self.return_type),
            decreases n - i,
        {
            self.visit_basic_block_data(&body[i]);
            proof {
                assert(body@.take(i + 1).drop_last() =~= body@.take(i as int));
                assert(body@.take(i + 1).last() == body@[i as int]);
                assert(self.method_bytecode_instructions@ =~= entry + spec_blocks_instructions(
                    body@.take(i + 1),
                    self.return_type,
                ));
            }
            i = i + 1;
        }
        proof {
            assert(body@.take(n as int) =~= body@);
        }
    }
}

/// Law: a function over two 32-bit integer parameters whose single
/// block assigns their sum and returns lowers to exactly load-local-0,
/// load-local-1, integer-add, integer-return; the simulated operand
/// stack peaks at 2; and the local count is the parameter count plus
/// one.
pub proof fn lemma_two_int_add_lowering(f: FunctionUnit)
    requires
        f.params@.len() == 2,
        f.params@[0] == SourceType::Int(IntWidth::W32),
        f.params@[1] == SourceType::Int(IntWidth::W32),
        f.ret == SourceType::Int(IntWidth::W32),
        f.blocks@.len() == 1,
        f.blocks@[0].statements@ == seq![Statement::AssignBinaryOp(BinOp::Add)],
        f.blocks@[0].terminator == Terminator::Return,
    ensures
        spec_function_instructions(f) == seq![
            Instruction::Iload0,
            Instruction::Iload1,
            Instruction::Iadd,
            Instruction::Ireturn,
        ],
        crate::frame::spec_max_stack(spec_function_instructions(f)) == 2,
        crate::frame::spec_max_locals(f.params@.len()) == 3,
{
    reveal_with_fuel(spec_blocks_instructions, 3);
    reveal_with_fuel(spec_statements_instructions, 3);
    reveal_with_fuel(crate::frame::spec_stack_depth, 6);
    reveal_with_fuel(crate::frame::spec_max_stack, 6);
    lemma_return_instruction_cases(f.ret);
    let blocks = f.blocks@;
    assert(blocks.drop_last() =~= Seq::<BasicBlock>::empty());
    assert(blocks.last() == blocks[0]);
    let stmts = blocks[0].statements@;
    assert(stmts.drop_last() =~= Seq::<Statement>::empty());
    assert(stmts.last() == stmts[0]);
    let code = seq![
        Instruction::Iload0,
        Instruction::Iload1,
        Instruction::Iadd,
        Instruction::Ireturn,
    ];
    assert(spec_function_instructions(f) =~= code);
    let c3 = code.drop_last();
    let c2 = c3.drop_last();
    let c1 = c2.drop_last();
    let c0 = c1.drop_last();
    assert(c0.len() == 0);
    assert(c1.last() == code[0] && c2.last() == code[1] && c3.last() == code[2] && code.last()
        == code[3]);
    assert(crate::frame::spec_stack_depth(c1) == 1);
    assert(crate::frame::spec_stack_depth(c2) == 2);
    assert(crate::frame::spec_stack_depth(c3) == 1);
    assert(crate::frame::spec_stack_depth(code) == 0);
    assert(crate::frame::spec_max_stack(c1) == 1);
    assert(crate::frame::spec_max_stack(c2) == 2);
    assert(crate::frame::spec_max_stack(c3) == 2);
    assert(crate::frame::spec_max_stack(code) == 2);
}

/// Lowers one function unit to its full instruction sequence.
pub fn translate_function(f: &FunctionUnit) -> (code: Vec<Instruction>)
    requires
        spec_mappable(f.ret),
    ensures
        code@ == spec_function_instructions(*f),
{
    let buffer: Vec<Instruction> = Vec::new();
    let mut visitor = MirToBytecodeVisitor::new(buffer, f.name.as_str(), f.ret);
    visitor.visit_body(&f.blocks);
    visitor.method_bytecode_instructions
}

} // verus!
