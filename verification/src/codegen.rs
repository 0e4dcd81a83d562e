//! The driver of the backend stage: from a compilation-unit name and its
//! function units to one serialized class file.
//!
//! Per function, the translator produces an instruction sequence; the
//! assembler then populates one constant pool — super-class name and
//! entry, this-class name and entry, the `Code` attribute name, and per
//! function its name and method descriptor — computes the frame sizes,
//! and lays everything out as bytes. Every size that must fit a
//! fixed-width field is checked, and a violation aborts the whole unit:
//! there is no partial output.

use vstd::prelude::*;
use vstd::utf8::encode_utf8;
use crate::classfile::{
    spec_class_file_wf,
    spec_code_attribute_bytes_parts,
    spec_method_bytes,
    spec_method_bytes_parts,
    spec_method_wf,
    spec_methods_bytes,
    ClassFile,
    CodeAttribute,
    Method,
};
use crate::encode::spec_be16;
use crate::error::ClassFileError;
use crate::frame::{max_locals, max_stack, spec_max_stack};
use crate::instruction::Instruction;
use crate::ir::FunctionUnit;
use crate::pool::{
    lemma_pool_wf_push,
    spec_entry_wf,
    spec_pool_bytes,
    spec_pool_wf,
    ConstantPool,
    SpecConstant,
};
use crate::translate::{spec_function_instructions, translate_function};
use crate::types::{mappable, method_descriptor, spec_mappable, spec_method_descriptor};

verus! {

/// Whether every type in a function's signature has a JVM mapping.
pub open spec fn spec_function_mappable(f: FunctionUnit) -> bool {
    spec_mappable(f.ret) && forall|j: int|
        0 <= j < f.params@.len() ==> spec_mappable(#[trigger] f.params@[j])
}

/// Whether every function of the unit has a fully mappable signature.
pub open spec fn spec_unit_mappable(funcs: Seq<FunctionUnit>) -> bool {
    forall|i: int| 0 <= i < funcs.len() ==> spec_function_mappable(#[trigger] funcs[i])
}

/// No two functions of a unit may share a name: the method table is
/// keyed by function name and insertion order is preserved.
pub open spec fn spec_distinct_function_names(funcs: Seq<FunctionUnit>) -> bool {
    forall|i: int, j: int|
        0 <= i < j < funcs.len() ==> (#[trigger] funcs[i].name@) != (#[trigger] funcs[j].name@)
}

/// Checks whether a function's signature is fully mappable.
pub fn function_mappable(f: &FunctionUnit) -> (b: bool)
    ensures
        b == spec_function_mappable(*f),
{
    if !mappable(&f.ret) {
        return false;
    }
    let n = f.params.len();
    let mut i: usize = 0;
    while i < n
        invariant
            n == f.params@.len(),
            0 <= i <= n,
            forall|j: int| 0 <= j < i ==> spec_mappable(#[trigger] f.params@[j]),
        decreases n - i,
    {
        if !mappable(&f.params[i]) {
            return false;
        }
        i = i + 1;
    }
    true
}

/// Checks whether every function of the unit has a mappable signature.
pub fn unit_mappable(functions: &Vec<FunctionUnit>) -> (b: bool)
    ensures
        b == spec_unit_mappable(functions@),
{
    let n = functions.len();
    let mut i: usize = 0;
    while i < n
        invariant
            n == functions@.len(),
            0 <= i <= n,
            forall|j: int| 0 <= j < i ==> spec_function_mappable(#[trigger] functions@[j]),
        decreases n - i,
    {
        if !function_mappable(&functions[i]) {
            return false;
        }
        i = i + 1;
    }
    true
}

/// The base constant pool of every unit: the super-class name
/// `java/lang/Object` and its class entry, the unit's own name and its
/// class entry, and the `Code` attribute name.
pub open spec fn spec_base_pool(crate_name: Seq<char>) -> Seq<SpecConstant> {
    seq![
        SpecConstant::Utf8(encode_utf8("java/lang/Object"@)),
        SpecConstant::Class(1),
        SpecConstant::Utf8(encode_utf8(crate_name)),
        SpecConstant::Class(3),
        SpecConstant::Utf8(encode_utf8("Code"@)),
    ]
}

/// The two pool entries of one function: its name and its method
/// descriptor.
pub open spec fn spec_function_pool_entries(f: FunctionUnit) -> Seq<SpecConstant> {
    seq![
        SpecConstant::Utf8(encode_utf8(f.name@)),
        SpecConstant::Utf8(encode_utf8(spec_method_descriptor(f.name@, f.params@, f.ret))),
    ]
}

/// The whole pool of a unit: the base entries, then both entries of each
/// function in order. No entry is deduplicated or merged.
pub open spec fn spec_unit_pool(crate_name: Seq<char>, funcs: Seq<FunctionUnit>) -> Seq<
    SpecConstant,
>
    decreases funcs.len(),
{
    if funcs.len() == 0 {
        spec_base_pool(crate_name)
    } else {
        spec_unit_pool(crate_name, funcs.drop_last()) + spec_function_pool_entries(funcs.last())
    }
}

/// The unit pool holds five base entries plus two per function.
pub proof fn lemma_unit_pool_len(crate_name: Seq<char>, funcs: Seq<FunctionUnit>)
    ensures
        spec_unit_pool(crate_name, funcs).len() == 5 + 2 * funcs.len(),
    decreases funcs.len(),
{
    if funcs.len() > 0 {
        lemma_unit_pool_len(crate_name, funcs.drop_last());
    }
}

/// Unfolding step for prefix-by-prefix reasoning about the unit pool.
pub proof fn lemma_unit_pool_take_step(crate_name: Seq<char>, funcs: Seq<FunctionUnit>, i: int)
    requires
        0 <= i < funcs.len(),
    ensures
        spec_unit_pool(crate_name, funcs.take(i + 1)) == spec_unit_pool(crate_name, funcs.take(i))
            + spec_function_pool_entries(funcs[i]),
{
    assert(funcs.take(i + 1).drop_last() =~= funcs.take(i));
    assert(funcs.take(i + 1).last() == funcs[i]);
}

/// The base entries stand at the front of every unit pool.
pub proof fn lemma_unit_pool_base_index(crate_name: Seq<char>, funcs: Seq<FunctionUnit>, k: int)
    requires
        0 <= k < 5,
    ensures
        spec_unit_pool(crate_name, funcs).len() >= 5,
        spec_unit_pool(crate_name, funcs)[k] == spec_base_pool(crate_name)[k],
    decreases funcs.len(),
{
    lemma_unit_pool_len(crate_name, funcs);
    if funcs.len() > 0 {
        lemma_unit_pool_base_index(crate_name, funcs.drop_last(), k);
        lemma_unit_pool_len(crate_name, funcs.drop_last());
    }
}

/// Function `i`'s name and descriptor entries stand at pool positions
/// `5 + 2 i` and `6 + 2 i` (0-based).
pub proof fn lemma_unit_pool_function_index(crate_name: Seq<char>, funcs: Seq<FunctionUnit>, i: int)
    requires
        0 <= i < funcs.len(),
    ensures
        spec_unit_pool(crate_name, funcs).len() == 5 + 2 * funcs.len(),
        spec_unit_pool(crate_name, funcs)[5 + 2 * i] == SpecConstant::Utf8(
            encode_utf8(funcs[i].name@),
        ),
        spec_unit_pool(crate_name, funcs)[6 + 2 * i] == SpecConstant::Utf8(
            encode_utf8(spec_method_descriptor(funcs[i].name@, funcs[i].params@, funcs[i].ret)),
        ),
    decreases funcs.len(),
{
    lemma_unit_pool_len(crate_name, funcs);
    lemma_unit_pool_len(crate_name, funcs.drop_last());
    if i < funcs.len() - 1 {
        lemma_unit_pool_function_index(crate_name, funcs.drop_last(), i);
        assert(funcs.drop_last()[i] == funcs[i]);
    }
}

/// Whether every UTF-8 entry of a pool fits its 16-bit length field.
pub open spec fn spec_pool_texts_fit(pool: Seq<SpecConstant>) -> bool {
    forall|k: int|
        0 <= k < pool.len() ==> ((#[trigger] pool[k]) matches SpecConstant::Utf8(b) ==> b.len()
            <= 0xFFFF)
}

/// Whether one function's frame sizes and code length fit their
/// class-file fields.
pub open spec fn spec_function_bounds(f: FunctionUnit) -> bool {
    &&& spec_max_stack(spec_function_instructions(f)) <= 0xFFFF
    &&& f.params@.len() + 1 <= 0xFFFF
    &&& spec_function_instructions(f).len() + 12 <= 0xFFFFFFFF
}

/// When the backend succeeds on a unit: every signature is mappable,
/// the pool fits its 16-bit count, every UTF-8 text fits its length
/// field, and every method's frame sizes and code length fit theirs.
pub open spec fn spec_unit_ok(crate_name: Seq<char>, funcs: Seq<FunctionUnit>) -> bool {
    &&& spec_unit_mappable(funcs)
    &&& 5 + 2 * funcs.len() <= 0xFFFE
    &&& spec_pool_texts_fit(spec_unit_pool(crate_name, funcs))
    &&& forall|i: int| 0 <= i < funcs.len() ==> spec_function_bounds(#[trigger] funcs[i])
}

/// The serialized method record of function `i`: `public static` flags,
/// its name and descriptor indices, and one Code attribute named by the
/// shared `Code` entry at index 5.
pub open spec fn spec_unit_method_bytes(f: FunctionUnit, i: int) -> Seq<u8> {
    spec_method_bytes_parts(
        0x0009,
        (6 + 2 * i) as u16,
        (7 + 2 * i) as u16,
        spec_code_attribute_bytes_parts(
            5,
            spec_max_stack(spec_function_instructions(f)) as u16,
            (f.params@.len() + 1) as u16,
            spec_function_instructions(f),
        ),
    )
}

/// The serialized method table of the first `n` functions, in order.
pub open spec fn spec_unit_methods_bytes(funcs: Seq<FunctionUnit>, n: int) -> Seq<u8>
    decreases n,
{
    if n <= 0 {
        Seq::empty()
    } else {
        spec_unit_methods_bytes(funcs, n - 1) + spec_unit_method_bytes(funcs[n - 1], n - 1)
    }
}

/// The serialized class file of a whole unit: header, pool, access flags
/// `public | super`, this-class at pool index 4, super-class at pool
/// index 2, no interfaces, no fields, one `public static` method per
/// function in order, and no class-level attributes.
pub open spec fn spec_unit_bytes(crate_name: Seq<char>, funcs: Seq<FunctionUnit>) -> Seq<u8> {
    let pool = spec_unit_pool(crate_name, funcs);
    seq![0xCAu8, 0xFEu8, 0xBAu8, 0xBEu8] + spec_be16(0) + spec_be16(52) + spec_be16(
        (pool.len() + 1) as u16,
    ) + spec_pool_bytes(pool) + spec_be16(0x0021) + spec_be16(4) + spec_be16(2) + spec_be16(0)
        + spec_be16(0) + spec_be16(funcs.len() as u16) + spec_unit_methods_bytes(
        funcs,
        funcs.len() as int,
    ) + spec_be16(0)
}

/// Law: the pool the assembler builds for a unit is closed under
/// reference — every index the class file mentions was emitted into the
/// pool before it is used, with the right tag: the super-class index 2
/// and this-class index 4 name class entries whose name entries (1 and
/// 3) come earlier, the shared `Code` name index 5 and every method's
/// name and descriptor indices (`6 + 2 i` and `7 + 2 i`) name UTF-8
/// entries, and every entry refers only backwards.
pub proof fn lemma_unit_pool_well_formed(crate_name: Seq<char>, funcs: Seq<FunctionUnit>)
    requires
        spec_pool_texts_fit(spec_unit_pool(crate_name, funcs)),
        5 + 2 * funcs.len() <= 0xFFFE,
    ensures
        spec_pool_wf(spec_unit_pool(crate_name, funcs)),
        crate::pool::spec_is_class_at(spec_unit_pool(crate_name, funcs), 2),
        crate::pool::spec_is_class_at(spec_unit_pool(crate_name, funcs), 4),
        crate::pool::spec_is_utf8_at(spec_unit_pool(crate_name, funcs), 5),
        forall|i: int|
            0 <= i < funcs.len() ==> (#[trigger] crate::pool::spec_is_utf8_at(
                spec_unit_pool(crate_name, funcs),
                (6 + 2 * i) as u16,
            )) && crate::pool::spec_is_utf8_at(spec_unit_pool(crate_name, funcs), (7 + 2 * i) as u16),
    decreases funcs.len(),
{
    let pool = spec_unit_pool(crate_name, funcs);
    lemma_unit_pool_len(crate_name, funcs);
    if funcs.len() == 0 {
        assert(spec_entry_wf(pool, 0));
        assert(spec_entry_wf(pool, 1));
        assert(spec_entry_wf(pool, 2));
        assert(spec_entry_wf(pool, 3));
        assert(spec_entry_wf(pool, 4));
        assert(spec_pool_wf(pool));
    } else {
        let prev = spec_unit_pool(crate_name, funcs.drop_last());
        lemma_unit_pool_len(crate_name, funcs.drop_last());
        assert forall|k: int|
            0 <= k < prev.len() implies ((#[trigger] prev[k]) matches SpecConstant::Utf8(b)
            ==> b.len() <= 0xFFFF) by {
            assert(pool[k] == prev[k]);
        }
        lemma_unit_pool_well_formed(crate_name, funcs.drop_last());
        let u1 = SpecConstant::Utf8(encode_utf8(funcs.last().name@));
        let u2 = SpecConstant::Utf8(
            encode_utf8(
                spec_method_descriptor(
                    funcs.last().name@,
                    funcs.last().params@,
                    funcs.last().ret,
                ),
            ),
        );
        assert(pool =~= prev.push(u1).push(u2));
        assert(pool[prev.len() as int] == u1);
        assert(pool[prev.len() as int + 1] == u2);
        lemma_pool_wf_push(prev, u1);
        lemma_pool_wf_push(prev.push(u1), u2);
        assert(spec_pool_wf(pool));
    }
    lemma_unit_pool_base_index(crate_name, funcs, 1);
    lemma_unit_pool_base_index(crate_name, funcs, 3);
    lemma_unit_pool_base_index(crate_name, funcs, 4);
    assert forall|i: int|
        0 <= i < funcs.len() implies (#[trigger] crate::pool::spec_is_utf8_at(
        spec_unit_pool(crate_name, funcs),
        (6 + 2 * i) as u16,
    )) && crate::pool::spec_is_utf8_at(spec_unit_pool(crate_name, funcs), (7 + 2 * i) as u16) by {
        lemma_unit_pool_function_index(crate_name, funcs, i);
    }
}

/// Law: the serialized class file of every unit begins with the magic
/// bytes `CA FE BA BE`, minor version 0 and major version 52 (Java 8).
pub proof fn lemma_unit_bytes_header(crate_name: Seq<char>, funcs: Seq<FunctionUnit>)
    ensures
        spec_unit_bytes(crate_name, funcs).len() >= 8,
        spec_unit_bytes(crate_name, funcs).subrange(0, 8) == seq![
            0xCAu8,
            0xFEu8,
            0xBAu8,
            0xBEu8,
            0u8,
            0u8,
            0u8,
            0x34u8,
        ],
{
    let b = spec_unit_bytes(crate_name, funcs);
    assert(b[0] == 0xCAu8);
    assert(b[1] == 0xFEu8);
    assert(b[2] == 0xBAu8);
    assert(b[3] == 0xBEu8);
    assert(b[4] == 0u8);
    assert(b[5] == 0u8);
    assert(b[6] == 0u8);
    assert(b[7] == 0x34u8);
    assert(b.subrange(0, 8) =~= seq![0xCAu8, 0xFEu8, 0xBAu8, 0xBEu8, 0u8, 0u8, 0u8, 0x34u8]);
}

/// How a built method record corresponds to function `j` of the unit.
pub open spec fn spec_method_of_function(m: Method, f: FunctionUnit, j: int) -> bool {
    &&& m.access_flags == 0x0009
    &&& m.name_index == (6 + 2 * j) as u16
    &&& m.descriptor_index == (7 + 2 * j) as u16
    &&& m.code.name_index == 5
    &&& m.code.max_stack == spec_max_stack(spec_function_instructions(f)) as u16
    &&& m.code.max_locals == (f.params@.len() + 1) as u16
    &&& m.code.code@ == spec_function_instructions(f)
}

/// A method table whose records correspond function-by-function
/// serializes to the unit's method-table bytes.
pub proof fn lemma_methods_bytes_correspond(
    methods: Seq<Method>,
    funcs: Seq<FunctionUnit>,
    n: int,
)
    requires
        methods.len() == n,
        0 <= n <= funcs.len(),
        forall|j: int| 0 <= j < n ==> spec_method_of_function(#[trigger] methods[j], funcs[j], j),
    ensures
        spec_methods_bytes(methods) == spec_unit_methods_bytes(funcs, n),
    decreases n,
{
    if n > 0 {
        assert(forall|j: int|
            0 <= j < n - 1 ==> spec_method_of_function(
                #[trigger] methods.drop_last()[j],
                funcs[j],
                j,
            ));
        lemma_methods_bytes_correspond(methods.drop_last(), funcs, n - 1);
        assert(spec_method_of_function(methods[n - 1], funcs[n - 1], n - 1));
        assert(spec_method_bytes(methods[n - 1]) == spec_unit_method_bytes(funcs[n - 1], n - 1));
    }
}

/// Finds the first function unit carrying the given name, used to look
/// a signature up when only the name is at hand.
pub fn find_instance_by_name(functions: &Vec<FunctionUnit>, function_name: &str) -> (r: Option<
    usize,
>)
    ensures
        match r {
            Some(i) => i < functions@.len() && functions@[i as int].name@ == function_name@
                && forall|j: int| 0 <= j < i ==> (#[trigger] functions@[j]).name@ != function_name@,
            None => forall|j: int|
                0 <= j < functions@.len() ==> (#[trigger] functions@[j]).name@ != function_name@,
        },
{
    let n = functions.len();
    let target = String::from_str(function_name);
    let mut i: usize = 0;
    while i < n
        invariant
            n == functions@.len(),
            0 <= i <= n,
            target@ == function_name@,
            forall|j: int| 0 <= j < i ==> (#[trigger] functions@[j]).name@ != function_name@,
        decreases n - i,
    {
        if functions[i].name == target {
            return Some(i);
        }
        i = i + 1;
    }
    None
}

/// Builds the five base pool entries. Fails only when a UTF-8 text of
/// the base pool — in practice the unit name — overflows its length
/// field.
fn build_base_pool(crate_name: &str) -> (r: Result<ConstantPool, ClassFileError>)
    ensures
        match r {
            Ok(pool) => pool@ == spec_base_pool(crate_name@) && spec_pool_wf(pool@),
            Err(ClassFileError::Utf8TooLong) => !spec_pool_texts_fit(spec_base_pool(crate_name@)),
            Err(_) => false,
        },
{
    let mut pool = ConstantPool::new();
    let object_utf8 = match pool.add_utf8("java/lang/Object") {
        Ok(x) => x,
        Err(e) => {
            return Err(e);
        },
    };
    let super_class = match pool.add_class(object_utf8) {
        Ok(x) => x,
        Err(e) => {
            proof {
                assert(false);
            }
            return Err(e);
        },
    };
    let crate_utf8 = match pool.add_utf8(crate_name) {
        Ok(x) => x,
        Err(e) => {
            return Err(e);
        },
    };
    let this_class = match pool.add_class(crate_utf8) {
        Ok(x) => x,
        Err(e) => {
            proof {
                assert(false);
            }
            return Err(e);
        },
    };
    let code_index = match pool.add_utf8("Code") {
        Ok(x) => x,
        Err(e) => {
            return Err(e);
        },
    };
    proof {
        assert(object_utf8 == 1 && super_class == 2 && crate_utf8 == 3 && this_class == 4
            && code_index == 5);
        assert(pool@ =~= spec_base_pool(crate_name@));
        assert(spec_entry_wf(pool@, 0));
        assert(spec_entry_wf(pool@, 1));
        assert(spec_entry_wf(pool@, 2));
        assert(spec_entry_wf(pool@, 3));
        assert(spec_entry_wf(pool@, 4));
        assert(spec_pool_wf(pool@));
    }
    Ok(pool)
}

/// Adds one function's name and descriptor to the pool and builds its
/// method record. Succeeds exactly when the pool has room for both
/// entries, both texts fit their length field, and the function's frame
/// sizes and code length fit theirs.
fn assemble_method(
    pool: &mut ConstantPool,
    f: &FunctionUnit,
    code: &Vec<Instruction>,
    code_index: u16,
) -> (r: Result<Method, ClassFileError>)
    requires
        spec_function_mappable(*f),
        code@ == spec_function_instructions(*f),
        spec_pool_wf(old(pool)@),
    ensures
        match r {
            Ok(m) => {
                &&& final(pool)@ == old(pool)@ + spec_function_pool_entries(*f)
                &&& spec_pool_wf(final(pool)@)
                &&& m.access_flags == 0x0009
                &&& m.name_index == (old(pool)@.len() + 1) as u16
                &&& m.descriptor_index == (old(pool)@.len() + 2) as u16
                &&& m.code.name_index == code_index
                &&& m.code.max_stack == spec_max_stack(spec_function_instructions(*f)) as u16
                &&& m.code.max_locals == (f.params@.len() + 1) as u16
                &&& m.code.code@ == spec_function_instructions(*f)
                &&& old(pool)@.len() + 2 <= 0xFFFE
                &&& spec_function_bounds(*f)
            },
            Err(ClassFileError::PoolOverflow) => old(pool)@.len() + 2 > 0xFFFE,
            Err(ClassFileError::Utf8TooLong) => encode_utf8(f.name@).len() > 0xFFFF || encode_utf8(
                spec_method_descriptor(f.name@, f.params@, f.ret),
            ).len() > 0xFFFF,
            Err(ClassFileError::FrameTooLarge) => !(spec_max_stack(
                spec_function_instructions(*f),
            ) <= 0xFFFF && f.params@.len() + 1 <= 0xFFFF),
            Err(ClassFileError::CodeTooLong) => spec_function_instructions(*f).len() + 12
                > 0xFFFFFFFF,
            Err(_) => false,
        },
{
    let name_index = match pool.add_utf8(f.name.as_str()) {
        Ok(x) => x,
        Err(e) => {
            return Err(e);
        },
    };
    let descriptor = method_descriptor(&f.name, &f.params, &f.ret);
    let descriptor_index = match pool.add_utf8(descriptor.as_str()) {
        Ok(x) => x,
        Err(e) => {
            return Err(e);
        },
    };
    proof {
        lemma_pool_wf_push(old(pool)@, SpecConstant::Utf8(encode_utf8(f.name@)));
        lemma_pool_wf_push(
            old(pool)@.push(SpecConstant::Utf8(encode_utf8(f.name@))),
            SpecConstant::Utf8(encode_utf8(spec_method_descriptor(f.name@, f.params@, f.ret))),
        );
        assert(pool@ =~= old(pool)@ + spec_function_pool_entries(*f));
    }
    let stack = max_stack(code);
    if stack > 0xFFFF {
        return Err(ClassFileError::FrameTooLarge);
    }
    if f.params.len() >= 0xFFFF {
        return Err(ClassFileError::FrameTooLarge);
    }
    let locals = max_locals(f.params.len());
    if code.len() >= 0xFFFFFFF4 {
        return Err(ClassFileError::CodeTooLong);
    }
    let code_vec = vstd::slice::slice_to_vec(code.as_slice());
    Ok(
        Method {
            access_flags: 0x0009,
            name_index,
            descriptor_index,
            code: CodeAttribute {
                name_index: code_index,
                max_stack: stack as u16,
                max_locals: locals as u16,
                code: code_vec,
            },
        },
    )
}

/// Assembles the class file of a unit from its functions and their
/// already-translated instruction sequences. Succeeds exactly when every
/// signature is mappable and every size fits its field; on success the
/// result is the exact serialized class file of the unit.
#[verifier::rlimit(100)]
pub fn generate_class_with_static_methods_bytecode(
    crate_name: &str,
    functions: &Vec<FunctionUnit>,
    bytecodes: &Vec<Vec<Instruction>>,
) -> (r: Result<Vec<u8>, ClassFileError>)
    requires
        bytecodes@.len() == functions@.len(),
        forall|j: int|
            0 <= j < functions@.len() ==> spec_function_mappable(#[trigger] functions@[j])
                ==> bytecodes@[j]@ == spec_function_instructions(functions@[j]),
    ensures
        r is Ok <==> spec_unit_ok(crate_name@, functions@),
        match r {
            Ok(bytes) => bytes@ == spec_unit_bytes(crate_name@, functions@),
            Err(ClassFileError::UnsupportedRawPointer) => !spec_unit_mappable(functions@),
            Err(ClassFileError::PoolOverflow) => 5 + 2 * functions@.len() > 0xFFFE,
            Err(ClassFileError::Utf8TooLong) => !spec_pool_texts_fit(
                spec_unit_pool(crate_name@, functions@),
            ),
            Err(ClassFileError::FrameTooLarge) => exists|i: int|
                0 <= i < functions@.len() && !(spec_max_stack(
                    spec_function_instructions(#[trigger] functions@[i]),
                ) <= 0xFFFF && functions@[i].params@.len() + 1 <= 0xFFFF),
            Err(ClassFileError::CodeTooLong) => exists|i: int|
                0 <= i < functions@.len() && spec_function_instructions(
                    #[trigger] functions@[i],
                ).len() + 12 > 0xFFFFFFFF,
            Err(ClassFileError::InvalidPoolIndex) => false,
        },
{
    let n = functions.len();

    // Reject any signature the type mapper has no JVM mapping for.
    if !unit_mappable(functions) {
        return Err(ClassFileError::UnsupportedRawPointer);
    }

    // The base pool: super-class, this-class, and the Code attribute name.
    let mut pool = match build_base_pool(crate_name) {
        Ok(p) => p,
        Err(e) => {
            proof {
                lemma_unit_pool_base_index(crate_name@, functions@, 0);
                lemma_unit_pool_base_index(crate_name@, functions@, 2);
                lemma_unit_pool_base_index(crate_name@, functions@, 4);
            }
            return Err(e);
        },
    };
    let super_class: u16 = 2;
    let this_class: u16 = 4;
    let code_index: u16 = 5;
    proof {
        assert(functions@.take(0) =~= Seq::<FunctionUnit>::empty());
        assert(spec_unit_pool(crate_name@, functions@.take(0)) == spec_base_pool(crate_name@));
    }

    // One method record per function, in declared order.
    let mut methods: Vec<Method> = Vec::new();
    let mut i: usize = 0;
    while i < n
        invariant
            n == functions@.len(),
            bytecodes@.len() == n,
            0 <= i <= n,
            spec_unit_mappable(functions@),
            forall|j: int|
                0 <= j < n ==> spec_function_mappable(#[trigger] functions@[j]) ==> bytecodes@[j]@
                    == spec_function_instructions(functions@[j]),
            code_index == 5,
            pool@ == spec_unit_pool(crate_name@, functions@.take(i as int)),
            spec_pool_wf(pool@),
            methods@.len() == i,
            forall|j: int|
                0 <= j < i ==> spec_method_of_function(#[trigger] methods@[j], functions@[j], j),
            forall|j: int| 0 <= j < i ==> spec_function_bounds(#[trigger] functions@[j]),
        decreases n - i,
    {
        proof {
            lemma_unit_pool_len(crate_name@, functions@.take(i as int));
        }
        let f = &functions[i];
        let method = match assemble_method(&mut pool, f, &bytecodes[i], code_index) {
            Ok(m) => m,
            Err(e) => {
                proof {
                    lemma_unit_pool_function_index(crate_name@, functions@, i as int);
                }
                return Err(e);
            },
        };
        proof {
            lemma_unit_pool_take_step(crate_name@, functions@, i as int);
        }
        methods.push(method);
        proof {
            assert(spec_method_of_function(methods@[i as int], functions@[i as int], i as int));
        }
        i = i + 1;
    }
    proof {
        assert(functions@.take(n as int) =~= functions@);
    }

    // Merge pool, class indices and method table, and serialize.
    let cf = ClassFile { constant_pool: pool, this_class, super_class, methods };
    proof {
        lemma_unit_pool_len(crate_name@, functions@);
        lemma_unit_pool_base_index(crate_name@, functions@, 1);
        lemma_unit_pool_base_index(crate_name@, functions@, 3);
        lemma_unit_pool_base_index(crate_name@, functions@, 4);
        assert forall|j: int| 0 <= j < cf.methods@.len() implies spec_method_wf(
            #[trigger] cf.methods@[j],
            cf.constant_pool@,
        ) by {
            lemma_unit_pool_function_index(crate_name@, functions@, j);
            assert(spec_method_of_function(cf.methods@[j], functions@[j], j));
            assert(spec_function_bounds(functions@[j]));
        }
        assert(spec_class_file_wf(cf));
    }
    let bytes = cf.to_bytes();
    proof {
        lemma_methods_bytes_correspond(cf.methods@, functions@, n as int);
        assert(bytes@ =~= spec_unit_bytes(crate_name@, functions@));
        let ghost full_pool = spec_unit_pool(crate_name@, functions@);
        assert forall|k: int|
            0 <= k < full_pool.len() implies ((#[trigger] full_pool[k]) matches SpecConstant::Utf8(
            b,
        ) ==> b.len() <= 0xFFFF) by {
            assert(spec_entry_wf(full_pool, k));
        }
        assert(spec_pool_texts_fit(full_pool));
        assert(spec_unit_ok(crate_name@, functions@));
    }
    Ok(bytes)
}

/// Translates every function of a unit and assembles the class file:
/// the pure surface of the whole backend stage, from a unit name and its
/// functions to class-file bytes or a diagnosable failure.
pub fn compile_unit(crate_name: &str, functions: &Vec<FunctionUnit>) -> (r: Result<
    Vec<u8>,
    ClassFileError,
>)
    requires
        spec_distinct_function_names(functions@),
    ensures
        r is Ok <==> spec_unit_ok(crate_name@, functions@),
        match r {
            Ok(bytes) => bytes@ == spec_unit_bytes(crate_name@, functions@),
            Err(ClassFileError::UnsupportedRawPointer) => !spec_unit_mappable(functions@),
            Err(ClassFileError::PoolOverflow) => 5 + 2 * functions@.len() > 0xFFFE,
            Err(ClassFileError::Utf8TooLong) => !spec_pool_texts_fit(
                spec_unit_pool(crate_name@, functions@),
            ),
            Err(ClassFileError::FrameTooLarge) => exists|i: int|
                0 <= i < functions@.len() && !(spec_max_stack(
                    spec_function_instructions(#[trigger] functions@[i]),
                ) <= 0xFFFF && functions@[i].params@.len() + 1 <= 0xFFFF),
            Err(ClassFileError::CodeTooLong) => exists|i: int|
                0 <= i < functions@.len() && spec_function_instructions(
                    #[trigger] functions@[i],
                ).len() + 12 > 0xFFFFFFFF,
            Err(ClassFileError::InvalidPoolIndex) => false,
        },
{
    let n = functions.len();
    let mut i: usize = 0;
    while i < n
        invariant
            n == functions@.len(),
            0 <= i <= n,
            forall|j: int| 0 <= j < i ==> spec_function_mappable(#[trigger] functions@[j]),
        decreases n - i,
    {
        if !function_mappable(&functions[i]) {
            return Err(ClassFileError::UnsupportedRawPointer);
        }
        i = i + 1;
    }
    let mut bytecodes: Vec<Vec<Instruction>> = Vec::new();
    let mut i: usize = 0;
    while i < n
        invariant
            n == functions@.len(),
            0 <= i <= n,
            spec_unit_mappable(functions@),
            bytecodes@.len() == i,
            forall|j: int|
                0 <= j < i ==> (#[trigger] bytecodes@[j])@ == spec_function_instructions(
                    functions@[j],
                ),
        decreases n - i,
    {
        let code = translate_function(&functions[i]);
        bytecodes.push(code);
        i = i + 1;
    }
    generate_class_with_static_methods_bytecode(crate_name, functions, &bytecodes)
}

} // verus!
