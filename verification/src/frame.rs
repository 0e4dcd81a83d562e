//! The stack/locals analyzer: `max_stack` and `max_locals` for a method.
//!
//! `max_stack` is the maximum operand-stack depth reached when the
//! instruction sequence is simulated in order: loads push one value, a
//! binary operation pops two and pushes one, and any return instruction
//! pops one. A depth that would go negative is clamped to zero.
//! `max_locals` is the parameter count plus one slot.

use vstd::prelude::*;
use crate::instruction::Instruction;

verus! {

/// The operand-stack depth after one instruction, starting from `depth`.
/// Popping below an empty stack clamps to zero.
pub open spec fn spec_stack_step(depth: nat, i: Instruction) -> nat {
    match i {
        Instruction::Iload0 => depth + 1,
        Instruction::Iload1 => depth + 1,
        Instruction::Iadd => if depth >= 2 {
            (depth - 1) as nat
        } else {
            1
        },
        Instruction::Isub => if depth >= 2 {
            (depth - 1) as nat
        } else {
            1
        },
        Instruction::Ireturn => if depth >= 1 {
            (depth - 1) as nat
        } else {
            0
        },
        Instruction::Areturn => if depth >= 1 {
            (depth - 1) as nat
        } else {
            0
        },
        Instruction::Return => if depth >= 1 {
            (depth - 1) as nat
        } else {
            0
        },
    }
}

/// The operand-stack depth after simulating the whole sequence from an
/// empty stack.
pub open spec fn spec_stack_depth(code: Seq<Instruction>) -> nat
    decreases code.len(),
{
    if code.len() == 0 {
        0
    } else {
        spec_stack_step(spec_stack_depth(code.drop_last()), code.last())
    }
}

/// The maximum operand-stack depth observed while simulating the
/// sequence from an empty stack.
pub open spec fn spec_max_stack(code: Seq<Instruction>) -> nat
    decreases code.len(),
{
    if code.len() == 0 {
        0
    } else {
        let m = spec_max_stack(code.drop_last());
        let d = spec_stack_depth(code);
        if d > m {
            d
        } else {
            m
        }
    }
}

/// Computes `max_stack`: the running maximum of the simulated
/// operand-stack depth across the instruction sequence.
pub fn max_stack(code: &Vec<Instruction>) -> (r: usize)
    ensures
        r == spec_max_stack(code@),
        r <= code@.len(),
{
    let n = code.len();
    let mut depth: usize = 0;
    let mut max: usize = 0;
    let mut i: usize = 0;
    proof {
        assert(code@.take(0) =~= Seq::<Instruction>::empty());
    }
    while i < n
        invariant
            n == code@.len(),
            0 <= i <= n,
            depth == spec_stack_depth(code@.take(i as int)),
            max == spec_max_stack(code@.take(i as int)),
            depth <= i,
            max <= i,
        decreases n - i,
    {
        proof {
            assert(code@.take(i + 1).drop_last() =~= code@.take(i as int));
            assert(code@.take(i + 1).last() == code@[i as int]);
        }
        depth = match code[i] {
            Instruction::Iload0 => depth + 1,
            Instruction::Iload1 => depth + 1,
            Instruction::Iadd => if depth >= 2 {
                depth - 1
            } else {
                1
            },
            Instruction::Isub => if depth >= 2 {
                depth - 1
            } else {
                1
            },
            Instruction::Ireturn => if depth >= 1 {
                depth - 1
            } else {
                0
            },
            Instruction::Areturn => if depth >= 1 {
                depth - 1
            } else {
                0
            },
            Instruction::Return => if depth >= 1 {
                depth - 1
            } else {
                0
            },
        };
        if depth > max {
            max = depth;
        }
        i = i + 1;
    }
    proof {
        assert(code@.take(n as int) =~= code@);
    }
    max
}

/// The local-variable slot count of a method: its parameter count plus
/// one reserved slot.
pub open spec fn spec_max_locals(param_count: nat) -> nat {
    param_count + 1
}

/// Computes `max_locals` from the function's declared parameter count.
pub fn max_locals(param_count: usize) -> (r: usize)
    requires
        param_count < usize::MAX,
    ensures
        r == spec_max_locals(param_count as nat),
{
    param_count + 1
}

} // verus!
