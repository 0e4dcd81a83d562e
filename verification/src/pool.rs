//! The constant pool builder.
//!
//! Every `add_*` operation appends one entry and returns its 1-based
//! index, which is always the previous entry count plus one: indices are
//! handed out strictly increasing from 1. There is no lookup and no
//! deduplication — adding the same text twice yields two entries — so
//! callers cache the indices they intend to reuse. An entry that refers
//! to another entry may only refer to one added earlier, which keeps the
//! pool closed under reference at every step.

use vstd::prelude::*;
use vstd::utf8::encode_utf8;
use crate::encode::{push_u16_be, spec_be16};
use crate::error::ClassFileError;

verus! {

/// A constant-pool entry.
#[derive(Clone, Debug)]
pub enum Constant {
    /// Tag 1: a length-prefixed UTF-8 text.
    Utf8(Vec<u8>),
    /// Tag 7: a class, by the index of its name.
    Class(u16),
    /// Tag 12: a name-and-type pair, by the indices of name and
    /// descriptor.
    NameAndType(u16, u16),
    /// Tag 9: a field reference, by the indices of its class and its
    /// name-and-type pair.
    Fieldref(u16, u16),
    /// Tag 10: a method reference, by the indices of its class and its
    /// name-and-type pair.
    Methodref(u16, u16),
}

/// The mathematical model of a constant-pool entry: the same variants
/// over a byte sequence.
pub enum SpecConstant {
    Utf8(Seq<u8>),
    Class(u16),
    NameAndType(u16, u16),
    Fieldref(u16, u16),
    Methodref(u16, u16),
}

impl View for Constant {
    type V = SpecConstant;

    open spec fn view(&self) -> SpecConstant {
        match self {
            Constant::Utf8(b) => SpecConstant::Utf8(b@),
            Constant::Class(i) => SpecConstant::Class(*i),
            Constant::NameAndType(n, d) => SpecConstant::NameAndType(*n, *d),
            Constant::Fieldref(c, nt) => SpecConstant::Fieldref(*c, *nt),
            Constant::Methodref(c, nt) => SpecConstant::Methodref(*c, *nt),
        }
    }
}

/// Whether the pool can take one more entry: the serialized entry count
/// is the entry number plus one and must fit 16 bits.
pub open spec fn spec_pool_has_room(pool: Seq<SpecConstant>) -> bool {
    pool.len() < 0xFFFE
}

/// Whether 1-based index `idx` exists in the pool and is a UTF-8 entry.
pub open spec fn spec_is_utf8_at(pool: Seq<SpecConstant>, idx: u16) -> bool {
    1 <= idx <= pool.len() && pool[idx - 1] is Utf8
}

/// Whether 1-based index `idx` exists in the pool and is a class entry.
pub open spec fn spec_is_class_at(pool: Seq<SpecConstant>, idx: u16) -> bool {
    1 <= idx <= pool.len() && pool[idx - 1] is Class
}

/// Whether 1-based index `idx` exists in the pool and is a name-and-type
/// entry.
pub open spec fn spec_is_name_and_type_at(pool: Seq<SpecConstant>, idx: u16) -> bool {
    1 <= idx <= pool.len() && pool[idx - 1] is NameAndType
}

/// Well-formedness of the entry at position `k` (0-based): its texts fit
/// their length field, and every index it carries refers to an entry
/// added strictly earlier, of the right tag.
pub open spec fn spec_entry_wf(pool: Seq<SpecConstant>, k: int) -> bool {
    match pool[k] {
        SpecConstant::Utf8(b) => b.len() <= 0xFFFF,
        SpecConstant::Class(i) => 1 <= i <= k && pool[i - 1] is Utf8,
        SpecConstant::NameAndType(n, d) => 1 <= n <= k && pool[n - 1] is Utf8 && 1 <= d <= k
            && pool[d - 1] is Utf8,
        SpecConstant::Fieldref(c, nt) => 1 <= c <= k && pool[c - 1] is Class && 1 <= nt <= k && pool[
            nt - 1
        ] is NameAndType,
        SpecConstant::Methodref(c, nt) => 1 <= c <= k && pool[c - 1] is Class && 1 <= nt <= k
            && pool[nt - 1] is NameAndType,
    }
}

/// Well-formedness of a whole pool: it fits the 16-bit count, and every
/// entry refers only to earlier entries of the right tag.
pub open spec fn spec_pool_wf(pool: Seq<SpecConstant>) -> bool {
    pool.len() <= 0xFFFE && forall|k: int| 0 <= k < pool.len() ==> spec_entry_wf(pool, k)
}

/// Appending an entry that is well-formed at its new position keeps the
/// pool well-formed: earlier entries never refer forward, so the new
/// entry cannot disturb them.
pub proof fn lemma_pool_wf_push(pool: Seq<SpecConstant>, c: SpecConstant)
    requires
        spec_pool_wf(pool),
        spec_pool_has_room(pool),
        spec_entry_wf(pool.push(c), pool.len() as int),
    ensures
        spec_pool_wf(pool.push(c)),
{
    let pool2 = pool.push(c);
    assert forall|k: int| 0 <= k < pool2.len() implies spec_entry_wf(pool2, k) by {
        if k < pool.len() {
            assert(spec_entry_wf(pool, k));
            assert(pool2[k] == pool[k]);
            match pool[k] {
                SpecConstant::Utf8(b) => {},
                SpecConstant::Class(i) => {
                    assert(pool2[i - 1] == pool[i - 1]);
                },
                SpecConstant::NameAndType(n, d) => {
                    assert(pool2[n - 1] == pool[n - 1]);
                    assert(pool2[d - 1] == pool[d - 1]);
                },
                SpecConstant::Fieldref(c2, nt) => {
                    assert(pool2[c2 - 1] == pool[c2 - 1]);
                    assert(pool2[nt - 1] == pool[nt - 1]);
                },
                SpecConstant::Methodref(c2, nt) => {
                    assert(pool2[c2 - 1] == pool[c2 - 1]);
                    assert(pool2[nt - 1] == pool[nt - 1]);
                },
            }
        }
    }
}

/// The serialized bytes of one entry: its tag byte, then its payload;
/// a UTF-8 entry carries a 16-bit byte length before its text.
pub open spec fn spec_constant_bytes(c: SpecConstant) -> Seq<u8> {
    match c {
        SpecConstant::Utf8(b) => seq![1u8] + spec_be16(b.len() as u16) + b,
        SpecConstant::Class(i) => seq![7u8] + spec_be16(i),
        SpecConstant::NameAndType(n, d) => seq![12u8] + spec_be16(n) + spec_be16(d),
        SpecConstant::Fieldref(c2, nt) => seq![9u8] + spec_be16(c2) + spec_be16(nt),
        SpecConstant::Methodref(c2, nt) => seq![10u8] + spec_be16(c2) + spec_be16(nt),
    }
}

/// The serialized bytes of a pool: its entries' bytes in order.
pub open spec fn spec_pool_bytes(pool: Seq<SpecConstant>) -> Seq<u8>
    decreases pool.len(),
{
    if pool.len() == 0 {
        Seq::empty()
    } else {
        spec_pool_bytes(pool.drop_last()) + spec_constant_bytes(pool.last())
    }
}

/// Unfolding step for prefix-by-prefix reasoning about pool bytes.
pub proof fn lemma_pool_bytes_take_step(pool: Seq<SpecConstant>, i: int)
    requires
        0 <= i < pool.len(),
    ensures
        spec_pool_bytes(pool.take(i + 1)) == spec_pool_bytes(pool.take(i)) + spec_constant_bytes(
            pool[i],
        ),
{
    assert(pool.take(i + 1).drop_last() =~= pool.take(i));
    assert(pool.take(i + 1).last() == pool[i]);
}

/// The constant pool under construction.
#[derive(Clone, Debug)]
pub struct ConstantPool {
    pub entries: Vec<Constant>,
}

impl View for ConstantPool {
    type V = Seq<SpecConstant>;

    open spec fn view(&self) -> Seq<SpecConstant> {
        Seq::new(self.entries@.len(), |i: int| self.entries@[i]@)
    }
}

impl ConstantPool {
    /// An empty pool.
    pub fn new() -> (p: ConstantPool)
        ensures
            p@ == Seq::<SpecConstant>::empty(),
    {
        let p = ConstantPool { entries: Vec::new() };
        proof {
            assert(p@ =~= Seq::<SpecConstant>::empty());
        }
        p
    }

    /// The number of entries added so far.
    pub fn len(&self) -> (n: usize)
        ensures
            n == self@.len(),
    {
        self.entries.len()
    }

    /// Appends a UTF-8 entry holding the encoding of `text` and returns
    /// its index, the previous entry count plus one.
    pub fn add_utf8(&mut self, text: &str) -> (r: Result<u16, ClassFileError>)
        ensures
            match r {
                Ok(i) => spec_pool_has_room(old(self)@) && encode_utf8(text@).len() <= 0xFFFF
                    && final(self)@ == old(self)@.push(SpecConstant::Utf8(encode_utf8(text@))) && i
                    == old(self)@.len() + 1,
                Err(ClassFileError::PoolOverflow) => !spec_pool_has_room(old(self)@) && *final(self)
                    == *old(self),
                Err(ClassFileError::Utf8TooLong) => spec_pool_has_room(old(self)@) && encode_utf8(
                    text@,
                ).len() > 0xFFFF && *final(self) == *old(self),
                Err(_) => false,
            },
    {
        if self.entries.len() >= 0xFFFE {
            return Err(ClassFileError::PoolOverflow);
        }
        let bytes = text.as_bytes_vec();
        if bytes.len() > 0xFFFF {
            return Err(ClassFileError::Utf8TooLong);
        }
        self.entries.push(Constant::Utf8(bytes));
        proof {
            assert(self@ =~= old(self)@.push(SpecConstant::Utf8(encode_utf8(text@))));
        }
        Ok(self.entries.len() as u16)
    }

    /// Appends a class entry referring to the UTF-8 entry at
    /// `name_index` and returns its index.
    pub fn add_class(&mut self, name_index: u16) -> (r: Result<u16, ClassFileError>)
        ensures
            match r {
                Ok(i) => spec_pool_has_room(old(self)@) && spec_is_utf8_at(old(self)@, name_index)
                    && final(self)@ == old(self)@.push(SpecConstant::Class(name_index)) && i == old(
                    self,
                )@.len() + 1,
                Err(ClassFileError::PoolOverflow) => !spec_pool_has_room(old(self)@) && *final(self)
                    == *old(self),
                Err(ClassFileError::InvalidPoolIndex) => spec_pool_has_room(old(self)@)
                    && !spec_is_utf8_at(old(self)@, name_index) && *final(self) == *old(self),
                Err(_) => false,
            },
    {
        if self.entries.len() >= 0xFFFE {
            return Err(ClassFileError::PoolOverflow);
        }
        if !self.is_utf8_at(name_index) {
            return Err(ClassFileError::InvalidPoolIndex);
        }
        self.entries.push(Constant::Class(name_index));
        proof {
            assert(self@ =~= old(self)@.push(SpecConstant::Class(name_index)));
        }
        Ok(self.entries.len() as u16)
    }

    /// Appends a name-and-type entry referring to two UTF-8 entries and
    /// returns its index.
    pub fn add_name_and_type(&mut self, name_index: u16, descriptor_index: u16) -> (r: Result<
        u16,
        ClassFileError,
    >)
        ensures
            match r {
                Ok(i) => spec_pool_has_room(old(self)@) && spec_is_utf8_at(old(self)@, name_index)
                    && spec_is_utf8_at(old(self)@, descriptor_index) && final(self)@ == old(
                    self,
                )@.push(SpecConstant::NameAndType(name_index, descriptor_index)) && i == old(
                    self,
                )@.len() + 1,
                Err(ClassFileError::PoolOverflow) => !spec_pool_has_room(old(self)@) && *final(self)
                    == *old(self),
                Err(ClassFileError::InvalidPoolIndex) => spec_pool_has_room(old(self)@) && !(
                spec_is_utf8_at(old(self)@, name_index) && spec_is_utf8_at(
                    old(self)@,
                    descriptor_index,
                )) && *final(self) == *old(self),
                Err(_) => false,
            },
    {
        if self.entries.len() >= 0xFFFE {
            return Err(ClassFileError::PoolOverflow);
        }
        if !self.is_utf8_at(name_index) || !self.is_utf8_at(descriptor_index) {
            return Err(ClassFileError::InvalidPoolIndex);
        }
        self.entries.push(Constant::NameAndType(name_index, descriptor_index));
        proof {
            assert(self@ =~= old(self)@.push(
                SpecConstant::NameAndType(name_index, descriptor_index),
            ));
        }
        Ok(self.entries.len() as u16)
    }

    /// Appends a field reference to a class entry and a name-and-type
    /// entry and returns its index.
    pub fn add_fieldref(&mut self, class_index: u16, name_and_type_index: u16) -> (r: Result<
        u16,
        ClassFileError,
    >)
        ensures
            match r {
                Ok(i) => spec_pool_has_room(old(self)@) && spec_is_class_at(old(self)@, class_index)
                    && spec_is_name_and_type_at(old(self)@, name_and_type_index) && final(self)@
                    == old(self)@.push(SpecConstant::Fieldref(class_index, name_and_type_index))
                    && i == old(self)@.len() + 1,
                Err(ClassFileError::PoolOverflow) => !spec_pool_has_room(old(self)@) && *final(self)
                    == *old(self),
                Err(ClassFileError::InvalidPoolIndex) => spec_pool_has_room(old(self)@) && !(
                spec_is_class_at(old(self)@, class_index) && spec_is_name_and_type_at(
                    old(self)@,
                    name_and_type_index,
                )) && *final(self) == *old(self),
                Err(_) => false,
            },
    {
        if self.entries.len() >= 0xFFFE {
            return Err(ClassFileError::PoolOverflow);
        }
        if !self.is_class_at(class_index) || !self.is_name_and_type_at(name_and_type_index) {
            return Err(ClassFileError::InvalidPoolIndex);
        }
        self.entries.push(Constant::Fieldref(class_index, name_and_type_index));
        proof {
            assert(self@ =~= old(self)@.push(
                SpecConstant::Fieldref(class_index, name_and_type_index),
            ));
        }
        Ok(self.entries.len() as u16)
    }

    /// Appends a method reference to a class entry and a name-and-type
    /// entry and returns its index.
    pub fn add_methodref(&mut self, class_index: u16, name_and_type_index: u16) -> (r: Result<
        u16,
        ClassFileError,
    >)
        ensures
            match r {
                Ok(i) => spec_pool_has_room(old(self)@) && spec_is_class_at(old(self)@, class_index)
                    && spec_is_name_and_type_at(old(self)@, name_and_type_index) && final(self)@
                    == old(self)@.push(SpecConstant::Methodref(class_index, name_and_type_index))
                    && i == old(self)@.len() + 1,
                Err(ClassFileError::PoolOverflow) => !spec_pool_has_room(old(self)@) && *final(self)
                    == *old(self),
                Err(ClassFileError::InvalidPoolIndex) => spec_pool_has_room(old(self)@) && !(
                spec_is_class_at(old(self)@, class_index) && spec_is_name_and_type_at(
                    old(self)@,
                    name_and_type_index,
                )) && *final(self) == *old(self),
                Err(_) => false,
            },
    {
        if self.entries.len() >= 0xFFFE {
            return Err(ClassFileError::PoolOverflow);
        }
        if !self.is_class_at(class_index) || !self.is_name_and_type_at(name_and_type_index) {
            return Err(ClassFileError::InvalidPoolIndex);
        }
        self.entries.push(Constant::Methodref(class_index, name_and_type_index));
        proof {
            assert(self@ =~= old(self)@.push(
                SpecConstant::Methodref(class_index, name_and_type_index),
            ));
        }
        Ok(self.entries.len() as u16)
    }

    /// Checks whether `idx` names an existing UTF-8 entry.
    pub fn is_utf8_at(&self, idx: u16) -> (b: bool)
        ensures
            b == spec_is_utf8_at(self@, idx),
    {
        if idx == 0 || (idx as usize) > self.entries.len() {
            return false;
        }
        match &self.entries[(idx - 1) as usize] {
            Constant::Utf8(_) => true,
            _ => false,
        }
    }

    /// Checks whether `idx` names an existing class entry.
    pub fn is_class_at(&self, idx: u16) -> (b: bool)
        ensures
            b == spec_is_class_at(self@, idx),
    {
        if idx == 0 || (idx as usize) > self.entries.len() {
            return false;
        }
        match &self.entries[(idx - 1) as usize] {
            Constant::Class(_) => true,
            _ => false,
        }
    }

    /// Checks whether `idx` names an existing name-and-type entry.
    pub fn is_name_and_type_at(&self, idx: u16) -> (b: bool)
        ensures
            b == spec_is_name_and_type_at(self@, idx),
    {
        if idx == 0 || (idx as usize) > self.entries.len() {
            return false;
        }
        match &self.entries[(idx - 1) as usize] {
            Constant::NameAndType(_, _) => true,
            _ => false,
        }
    }
}

/// Serializes a pool by appending the entry count and every entry's
/// bytes to a buffer.
pub fn push_pool_bytes(buf: &mut Vec<u8>, pool: &ConstantPool)
    requires
        spec_pool_wf(pool@),
    ensures
        final(buf)@ == old(buf)@ + spec_be16((pool@.len() + 1) as u16) + spec_pool_bytes(pool@),
{
    push_u16_be(buf, (pool.entries.len() + 1) as u16);
    let ghost prefix = buf@;
    let n = pool.entries.len();
    let mut i: usize = 0;
    proof {
        assert(pool@.take(0) =~= Seq::<SpecConstant>::empty());
        assert(buf@ =~= prefix + spec_pool_bytes(pool@.take(0)));
    }
    while i < n
        invariant
            n == pool.entries@.len(),
            n == pool@.len(),
            0 <= i <= n,
            spec_pool_wf(pool@),
            buf@ == prefix + spec_pool_bytes(pool@.take(i as int)),
        decreases n - i,
    {
        proof {
            assert(spec_entry_wf(pool@, i as int));
            assert(pool@[i as int] == pool.entries@[i as int]@);
        }
        match &pool.entries[i] {
            Constant::Utf8(b) => {
                buf.push(1u8);
                push_u16_be(buf, b.len() as u16);
                buf.extend_from_slice(b.as_slice());
            },
            Constant::Class(idx) => {
                buf.push(7u8);
                push_u16_be(buf, *idx);
            },
            Constant::NameAndType(ni, di) => {
                buf.push(12u8);
                push_u16_be(buf, *ni);
                push_u16_be(buf, *di);
            },
            Constant::Fieldref(ci, nti) => {
                buf.push(9u8);
                push_u16_be(buf, *ci);
                push_u16_be(buf, *nti);
            },
            Constant::Methodref(ci, nti) => {
                buf.push(10u8);
                push_u16_be(buf, *ci);
                push_u16_be(buf, *nti);
            },
        }
        proof {
            lemma_pool_bytes_take_step(pool@, i as int);
            assert(buf@ =~= prefix + spec_pool_bytes(pool@.take(i + 1)));
        }
        i = i + 1;
    }
    proof {
        assert(pool@.take(n as int) =~= pool@);
        assert(buf@ =~= old(buf)@ + spec_be16((pool@.len() + 1) as u16) + spec_pool_bytes(pool@));
    }
}

} // verus!
