//! The JVM instructions the translator emits, and their encoding.
//!
//! Every emitted instruction is a single opcode byte; the byte sequence of
//! an instruction list is the concatenation of its opcodes.

use vstd::prelude::*;

verus! {

/// A JVM instruction of the subset the translator emits.
#[derive(Clone, Copy, PartialEq, Eq, Structural, Debug)]
pub enum Instruction {
    /// Load the `int` in local slot 0 onto the operand stack.
    Iload0,
    /// Load the `int` in local slot 1 onto the operand stack.
    Iload1,
    /// Pop two `int`s, push their sum.
    Iadd,
    /// Pop two `int`s, push their difference.
    Isub,
    /// Return the `int` on top of the stack.
    Ireturn,
    /// Return the object reference on top of the stack.
    Areturn,
    /// Return from a `void` method.
    Return,
}

/// The opcode byte of an instruction.
pub open spec fn spec_opcode(i: Instruction) -> u8 {
    match i {
        Instruction::Iload0 => 0x1a,
        Instruction::Iload1 => 0x1b,
        Instruction::Iadd => 0x60,
        Instruction::Isub => 0x64,
        Instruction::Ireturn => 0xac,
        Instruction::Areturn => 0xb0,
        Instruction::Return => 0xb1,
    }
}

/// Returns the opcode byte of an instruction.
pub fn opcode(i: &Instruction) -> (b: u8)
    ensures
        b == spec_opcode(*i),
{
    match i {
        Instruction::Iload0 => 0x1a,
        Instruction::Iload1 => 0x1b,
        Instruction::Iadd => 0x60,
        Instruction::Isub => 0x64,
        Instruction::Ireturn => 0xac,
        Instruction::Areturn => 0xb0,
        Instruction::Return => 0xb1,
    }
}

/// The byte encoding of an instruction sequence: one opcode byte per
/// instruction, in order.
pub open spec fn spec_code_bytes(code: Seq<Instruction>) -> Seq<u8>
    decreases code.len(),
{
    if code.len() == 0 {
        Seq::empty()
    } else {
        spec_code_bytes(code.drop_last()).push(spec_opcode(code.last()))
    }
}

/// Unfolding step for prefix-by-prefix reasoning about the encoding.
pub proof fn lemma_code_bytes_take_step(code: Seq<Instruction>, i: int)
    requires
        0 <= i < code.len(),
    ensures
        spec_code_bytes(code.take(i + 1)) == spec_code_bytes(code.take(i)).push(
            spec_opcode(code[i]),
        ),
{
    assert(code.take(i + 1).drop_last() =~= code.take(i));
    assert(code.take(i + 1).last() == code[i]);
}

/// Serializes an instruction sequence by appending its opcode bytes to a
/// buffer.
pub fn push_code_bytes(buf: &mut Vec<u8>, code: &Vec<Instruction>)
    ensures
        final(buf)@ == old(buf)@ + spec_code_bytes(code@),
{
    let n = code.len();
    let mut i: usize = 0;
    proof {
        assert(code@.take(0) =~= Seq::<Instruction>::empty());
        assert(buf@ =~= old(buf)@ + spec_code_bytes(code@.take(0)));
    }
    while i < n
        invariant
            n == code@.len(),
            0 <= i <= n,
            buf@ == old(buf)@ + spec_code_bytes(code@.take(i as int)),
        decreases n - i,
    {
        let b = opcode(&code[i]);
        buf.push(b);
        proof {
            lemma_code_bytes_take_step(code@, i as int);
        }
        i = i + 1;
    }
    proof {
        assert(code@.take(n as int) =~= code@);
    }
}

} // verus!
