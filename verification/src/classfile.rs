//! The structured class-file model and its binary layout.
//!
//! A class file here is a constant pool, a this-class and a super-class
//! index, and a method table; version and access flags are fixed: Java 8
//! (major 52, minor 0), `public` and `super` on the class, `public
//! static` on every method. Each method carries exactly one Code
//! attribute with an empty exception table and no nested attributes.
//! Serialization is big-endian throughout, and the Code attribute's
//! length field equals the byte count of everything after it in that
//! attribute.

use vstd::prelude::*;
use crate::encode::{push_u16_be, push_u32_be, spec_be16, spec_be32};
use crate::instruction::{push_code_bytes, spec_code_bytes, Instruction};
use crate::pool::{
    push_pool_bytes,
    spec_is_class_at,
    spec_is_utf8_at,
    spec_pool_bytes,
    spec_pool_wf,
    Constant,
    ConstantPool,
    SpecConstant,
};

verus! {

/// A method's Code attribute: the attribute-name index (the pool's
/// `Code` text), the frame sizes, and the instruction sequence.
#[derive(Clone, Debug)]
pub struct CodeAttribute {
    pub name_index: u16,
    pub max_stack: u16,
    pub max_locals: u16,
    pub code: Vec<Instruction>,
}

/// A method record: access flags, name and descriptor indices into the
/// pool, and its single Code attribute.
#[derive(Clone, Debug)]
pub struct Method {
    pub access_flags: u16,
    pub name_index: u16,
    pub descriptor_index: u16,
    pub code: CodeAttribute,
}

/// The whole class file: pool, class indices and method table.
#[derive(Clone, Debug)]
pub struct ClassFile {
    pub constant_pool: ConstantPool,
    pub this_class: u16,
    pub super_class: u16,
    pub methods: Vec<Method>,
}

/// The serialized Code attribute, from its parts: name index, attribute
/// length (the twelve fixed bytes after the length field plus the code),
/// frame sizes, code length and bytes, empty exception table, no nested
/// attributes.
pub open spec fn spec_code_attribute_bytes_parts(
    name_index: u16,
    max_stack: u16,
    max_locals: u16,
    code: Seq<Instruction>,
) -> Seq<u8> {
    spec_be16(name_index) + spec_be32((12 + code.len()) as u32) + spec_be16(max_stack) + spec_be16(
        max_locals,
    ) + spec_be32(code.len() as u32) + spec_code_bytes(code) + spec_be16(0) + spec_be16(0)
}

/// The serialized Code attribute of a method.
pub open spec fn spec_code_attribute_bytes(a: CodeAttribute) -> Seq<u8> {
    spec_code_attribute_bytes_parts(a.name_index, a.max_stack, a.max_locals, a.code@)
}

/// The serialized method record, from its parts: flags, name and
/// descriptor indices, one attribute, then the Code attribute.
pub open spec fn spec_method_bytes_parts(
    access_flags: u16,
    name_index: u16,
    descriptor_index: u16,
    attribute: Seq<u8>,
) -> Seq<u8> {
    spec_be16(access_flags) + spec_be16(name_index) + spec_be16(descriptor_index) + spec_be16(1)
        + attribute
}

/// The serialized bytes of one method record.
pub open spec fn spec_method_bytes(m: Method) -> Seq<u8> {
    spec_method_bytes_parts(
        m.access_flags,
        m.name_index,
        m.descriptor_index,
        spec_code_attribute_bytes(m.code),
    )
}

/// The serialized bytes of a method table, in order.
pub open spec fn spec_methods_bytes(methods: Seq<Method>) -> Seq<u8>
    decreases methods.len(),
{
    if methods.len() == 0 {
        Seq::empty()
    } else {
        spec_methods_bytes(methods.drop_last()) + spec_method_bytes(methods.last())
    }
}

/// Unfolding step for prefix-by-prefix reasoning about the method table.
pub proof fn lemma_methods_bytes_take_step(methods: Seq<Method>, i: int)
    requires
        0 <= i < methods.len(),
    ensures
        spec_methods_bytes(methods.take(i + 1)) == spec_methods_bytes(methods.take(i))
            + spec_method_bytes(methods[i]),
{
    assert(methods.take(i + 1).drop_last() =~= methods.take(i));
    assert(methods.take(i + 1).last() == methods[i]);
}

/// The serialized class file: magic, minor then major version, constant
/// pool count and bytes, access flags `public | super`, this-class,
/// super-class, no interfaces, no fields, the method table, and no
/// class-level attributes.
pub open spec fn spec_class_file_bytes(cf: ClassFile) -> Seq<u8> {
    seq![0xCAu8, 0xFEu8, 0xBAu8, 0xBEu8] + spec_be16(0) + spec_be16(52) + spec_be16(
        (cf.constant_pool@.len() + 1) as u16,
    ) + spec_pool_bytes(cf.constant_pool@) + spec_be16(0x0021) + spec_be16(cf.this_class)
        + spec_be16(cf.super_class) + spec_be16(0) + spec_be16(0) + spec_be16(
        cf.methods@.len() as u16,
    ) + spec_methods_bytes(cf.methods@) + spec_be16(0)
}

/// Well-formedness of a Code attribute against a pool: its name index is
/// a UTF-8 entry and its attribute length fits 32 bits.
pub open spec fn spec_code_attribute_wf(a: CodeAttribute, pool: Seq<SpecConstant>) -> bool {
    spec_is_utf8_at(pool, a.name_index) && a.code@.len() + 12 <= 0xFFFFFFFF
}

/// Well-formedness of a method record against a pool: name and
/// descriptor indices are UTF-8 entries, and its Code attribute is
/// well-formed.
pub open spec fn spec_method_wf(m: Method, pool: Seq<SpecConstant>) -> bool {
    spec_is_utf8_at(pool, m.name_index) && spec_is_utf8_at(pool, m.descriptor_index)
        && spec_code_attribute_wf(m.code, pool)
}

/// Well-formedness of a class file: the pool itself is well-formed, the
/// class indices name class entries, the method count fits 16 bits, and
/// every index a method references was emitted into the pool.
pub open spec fn spec_class_file_wf(cf: ClassFile) -> bool {
    spec_pool_wf(cf.constant_pool@) && spec_is_class_at(cf.constant_pool@, cf.this_class)
        && spec_is_class_at(cf.constant_pool@, cf.super_class) && cf.methods@.len() <= 0xFFFF
        && forall|i: int|
        0 <= i < cf.methods@.len() ==> spec_method_wf(#[trigger] cf.methods@[i], cf.constant_pool@)
}

/// Law: a serialized class file begins with the magic bytes `CA FE BA
/// BE`, minor version 0 and major version 52 (Java 8).
pub proof fn lemma_class_file_header(cf: ClassFile)
    ensures
        spec_class_file_bytes(cf).len() >= 8,
        spec_class_file_bytes(cf).subrange(0, 8) == seq![
            0xCAu8,
            0xFEu8,
            0xBAu8,
            0xBEu8,
            0u8,
            0u8,
            0u8,
            0x34u8,
        ],
{
    let b = spec_class_file_bytes(cf);
    assert(b[0] == 0xCAu8);
    assert(b[1] == 0xFEu8);
    assert(b[2] == 0xBAu8);
    assert(b[3] == 0xBEu8);
    assert(b[4] == 0u8);
    assert(b[5] == 0u8);
    assert(b[6] == 0u8);
    assert(b[7] == 0x34u8);
    assert(b.subrange(0, 8) =~= seq![0xCAu8, 0xFEu8, 0xBAu8, 0xBEu8, 0u8, 0u8, 0u8, 0x34u8]);
}

/// Checks a whole pool's well-formedness at run time.
fn pool_wf_check(pool: &ConstantPool) -> (b: bool)
    ensures
        b == spec_pool_wf(pool@),
{
    let n = pool.entries.len();
    if n > 0xFFFE {
        return false;
    }
    let mut k: usize = 0;
    while k < n
        invariant
            n == pool.entries@.len(),
            n == pool@.len(),
            0 <= k <= n,
            forall|j: int| 0 <= j < k ==> crate::pool::spec_entry_wf(pool@, j),
        decreases n - k,
    {
        proof {
            assert(pool@[k as int] == pool.entries@[k as int]@);
        }
        let entry_ok = match &pool.entries[k] {
            Constant::Utf8(b) => b.len() <= 0xFFFF,
            Constant::Class(i) => *i >= 1 && (*i as usize) <= k && utf8_tag_at(pool, *i),
            Constant::NameAndType(n2, d) => *n2 >= 1 && (*n2 as usize) <= k && utf8_tag_at(
                pool,
                *n2,
            ) && *d >= 1 && (*d as usize) <= k && utf8_tag_at(pool, *d),
            Constant::Fieldref(c, nt) => *c >= 1 && (*c as usize) <= k && class_tag_at(pool, *c)
                && *nt >= 1 && (*nt as usize) <= k && name_and_type_tag_at(pool, *nt),
            Constant::Methodref(c, nt) => *c >= 1 && (*c as usize) <= k && class_tag_at(pool, *c)
                && *nt >= 1 && (*nt as usize) <= k && name_and_type_tag_at(pool, *nt),
        };
        if !entry_ok {
            proof {
                assert(!crate::pool::spec_entry_wf(pool@, k as int));
            }
            return false;
        }
        k = k + 1;
    }
    true
}

/// Whether the entry at 1-based index `idx` (which must exist) carries
/// the UTF-8 tag.
fn utf8_tag_at(pool: &ConstantPool, idx: u16) -> (b: bool)
    requires
        1 <= idx <= pool@.len(),
    ensures
        b == (pool@[idx - 1] is Utf8),
{
    match &pool.entries[(idx - 1) as usize] {
        Constant::Utf8(_) => true,
        _ => false,
    }
}

/// Whether the entry at 1-based index `idx` (which must exist) carries
/// the class tag.
fn class_tag_at(pool: &ConstantPool, idx: u16) -> (b: bool)
    requires
        1 <= idx <= pool@.len(),
    ensures
        b == (pool@[idx - 1] is Class),
{
    match &pool.entries[(idx - 1) as usize] {
        Constant::Class(_) => true,
        _ => false,
    }
}

/// Whether the entry at 1-based index `idx` (which must exist) carries
/// the name-and-type tag.
fn name_and_type_tag_at(pool: &ConstantPool, idx: u16) -> (b: bool)
    requires
        1 <= idx <= pool@.len(),
    ensures
        b == (pool@[idx - 1] is NameAndType),
{
    match &pool.entries[(idx - 1) as usize] {
        Constant::NameAndType(_, _) => true,
        _ => false,
    }
}

impl ClassFile {
    /// Checks at run time exactly the well-formedness that
    /// serialization requires: the pool is closed under reference and
    /// every index and size fits its field.
    pub fn verify(&self) -> (b: bool)
        ensures
            b == spec_class_file_wf(*self),
    {
        if !pool_wf_check(&self.constant_pool) {
            return false;
        }
        if !self.constant_pool.is_class_at(self.this_class) {
            return false;
        }
        if !self.constant_pool.is_class_at(self.super_class) {
            return false;
        }
        let n = self.methods.len();
        if n > 0xFFFF {
            return false;
        }
        let mut i: usize = 0;
        while i < n
            invariant
                n == self.methods@.len(),
                0 <= i <= n,
                forall|j: int|
                    0 <= j < i ==> spec_method_wf(#[trigger] self.methods@[j], self.constant_pool@),
            decreases n - i,
        {
            let m = &self.methods[i];
            if !self.constant_pool.is_utf8_at(m.name_index) {
                return false;
            }
            if !self.constant_pool.is_utf8_at(m.descriptor_index) {
                return false;
            }
            if !self.constant_pool.is_utf8_at(m.code.name_index) {
                return false;
            }
            if m.code.code.len() >= 0xFFFFFFF4 {
                return false;
            }
            i = i + 1;
        }
        true
    }

    /// Serializes the class file to its exact byte layout.
    pub fn to_bytes(&self) -> (bytes: Vec<u8>)
        requires
            spec_class_file_wf(*self),
        ensures
            bytes@ == spec_class_file_bytes(*self),
    {
        let mut buf: Vec<u8> = Vec::new();
        buf.push(0xCAu8);
        buf.push(0xFEu8);
        buf.push(0xBAu8);
        buf.push(0xBEu8);
        push_u16_be(&mut buf, 0);
        push_u16_be(&mut buf, 52);
        push_pool_bytes(&mut buf, &self.constant_pool);
        push_u16_be(&mut buf, 0x0021);
        push_u16_be(&mut buf, self.this_class);
        push_u16_be(&mut buf, self.super_class);
        push_u16_be(&mut buf, 0);
        push_u16_be(&mut buf, 0);
        push_u16_be(&mut buf, self.methods.len() as u16);
        let ghost prefix = buf@;
        let n = self.methods.len();
        let mut i: usize = 0;
        proof {
            assert(self.methods@.take(0) =~= Seq::<Method>::empty());
            assert(buf@ =~= prefix + spec_methods_bytes(self.methods@.take(0)));
        }
        while i < n
            invariant
                n == self.methods@.len(),
                0 <= i <= n,
                spec_class_file_wf(*self),
                buf@ == prefix + spec_methods_bytes(self.methods@.take(i as int)),
            decreases n - i,
        {
            proof {
                assert(spec_method_wf(self.methods@[i as int], self.constant_pool@));
            }
            push_method_bytes(&mut buf, &self.methods[i]);
            proof {
                lemma_methods_bytes_take_step(self.methods@, i as int);
                assert(buf@ =~= prefix + spec_methods_bytes(self.methods@.take(i + 1)));
            }
            i = i + 1;
        }
        proof {
            assert(self.methods@.take(n as int) =~= self.methods@);
        }
        push_u16_be(&mut buf, 0);
        proof {
            assert(buf@ =~= spec_class_file_bytes(*self));
        }
        buf
    }
}

/// Serializes one method record, appending its bytes to a buffer.
pub fn push_method_bytes(buf: &mut Vec<u8>, m: &Method)
    requires
        m.code.code@.len() + 12 <= 0xFFFFFFFF,
    ensures
        final(buf)@ == old(buf)@ + spec_method_bytes(*m),
{
    push_u16_be(buf, m.access_flags);
    push_u16_be(buf, m.name_index);
    push_u16_be(buf, m.descriptor_index);
    push_u16_be(buf, 1);
    push_u16_be(buf, m.code.name_index);
    let attribute_length: u64 = m.code.code.len() as u64 + 12;
    push_u32_be(buf, attribute_length as u32);
    push_u16_be(buf, m.code.max_stack);
    push_u16_be(buf, m.code.max_locals);
    push_u32_be(buf, m.code.code.len() as u32);
    push_code_bytes(buf, &m.code.code);
    push_u16_be(buf, 0);
    push_u16_be(buf, 0);
    proof {
        assert(buf@ =~= old(buf)@ + spec_method_bytes(*m));
    }
}

} // verus!
