//! Error taxonomy of the backend stage.
//!
//! Every error propagates to the stage boundary; there is no partial
//! output. Unrecognized IR shapes are not errors: the translator elides
//! them, as its contract states.

use vstd::prelude::*;

verus! {

/// A failure while deriving descriptors, building the constant pool or
/// laying out the class file.
#[derive(Clone, Copy, PartialEq, Eq, Structural, Debug)]
pub enum ClassFileError {
    /// A signature contains a raw pointer to non-string data, which has
    /// no JVM mapping.
    UnsupportedRawPointer,
    /// The constant pool would exceed its 16-bit entry count.
    PoolOverflow,
    /// A UTF-8 entry would exceed its 16-bit byte-length field.
    Utf8TooLong,
    /// A referenced constant-pool index is absent or has the wrong tag.
    InvalidPoolIndex,
    /// `max_stack` or `max_locals` would exceed its 16-bit field.
    FrameTooLarge,
    /// A method body would exceed the Code attribute's 32-bit length
    /// field.
    CodeTooLong,
}

/// A failure while planning the entries of a JAR archive.
#[derive(Clone, Copy, PartialEq, Eq, Structural, Debug)]
pub enum JarError {
    /// Two input class files resolve to the same archive entry name.
    DuplicateEntryName,
}

} // verus!
