//! A compiler backend stage that lowers a typed, control-flow-graph
//! intermediate representation of functions into a Java Virtual Machine
//! class file.
//!
//! The pipeline runs in four steps: a type mapper derives JVM descriptors
//! from source types, a translator lowers each function body to a JVM
//! instruction sequence, a frame analyzer computes `max_stack` and
//! `max_locals`, and a class file assembler lays the constant pool, the
//! class metadata and the method table out as big-endian bytes.
//!
//! A small companion module covers the downstream packaging step: manifest
//! text, archive entry naming and entry-point detection for bundling the
//! emitted class files into a JAR.

pub mod alloc_hook;
pub mod classfile;
pub mod codegen;
pub mod encode;
pub mod error;
pub mod frame;
pub mod pool;
pub mod instruction;
pub mod jar;
pub mod ir;
pub mod translate;
pub mod types;
