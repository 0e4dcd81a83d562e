//! The intermediate representation the backend consumes: one function unit
//! per compiled function, each a control-flow graph of basic blocks.
//!
//! Only the shapes the translator recognizes are distinguished; every other
//! statement, terminator or binary operation is an explicit `Unsupported`
//! variant, which the translator elides without emitting bytecode.

use vstd::prelude::*;
use crate::types::SourceType;

verus! {

/// A binary operation of an assignment statement. Addition and
/// subtraction, each with or without an overflow-checking variant, are
/// recognized; everything else is unsupported.
#[derive(Clone, Copy, PartialEq, Eq, Structural, Debug)]
pub enum BinOp {
    Add,
    AddWithOverflow,
    Sub,
    SubWithOverflow,
    Unsupported,
}

/// A statement of a basic block. Only "assign the result of a binary
/// operation on two operands" is recognized.
#[derive(Clone, Copy, PartialEq, Eq, Structural, Debug)]
pub enum Statement {
    AssignBinaryOp(BinOp),
    Unsupported,
}

/// The terminator of a basic block. Only "return" triggers emission;
/// branches, calls and unwinds are unsupported.
#[derive(Clone, Copy, PartialEq, Eq, Structural, Debug)]
pub enum Terminator {
    Return,
    Unsupported,
}

/// A basic block: an ordered list of statements followed by exactly one
/// terminator.
#[derive(Clone, Debug)]
pub struct BasicBlock {
    pub statements: Vec<Statement>,
    pub terminator: Terminator,
}

/// One function as handed over by the front end: its name, its ordered
/// parameter types, its return type, and its basic blocks in declared
/// order.
#[derive(Clone, Debug)]
pub struct FunctionUnit {
    pub name: String,
    pub params: Vec<SourceType>,
    pub ret: SourceType,
    pub blocks: Vec<BasicBlock>,
}

} // verus!
