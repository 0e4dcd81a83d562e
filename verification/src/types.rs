//! The type mapper: source-language types and their JVM descriptors.
//!
//! A source type is reduced to exactly what descriptor derivation reads:
//! primitives with a width, string data behind a reference or raw pointer,
//! tuples by arity, and a catch-all for everything else. The mapper is a
//! pure function from such a type to a JVM field/return descriptor string.

use vstd::prelude::*;

verus! {

/// Width of a source-language integer type. `WPointer` is the
/// pointer-sized width, which narrows to a 32-bit JVM `int`.
#[derive(Clone, Copy, PartialEq, Eq, Structural, Debug)]
pub enum IntWidth {
    W8,
    W16,
    W32,
    W64,
    W128,
    WPointer,
}

/// Width of a source-language floating-point type.
#[derive(Clone, Copy, PartialEq, Eq, Structural, Debug)]
pub enum FloatWidth {
    W16,
    W32,
    W64,
    W128,
}

/// What a reference or raw pointer points at, as far as descriptor
/// derivation cares: string data or anything else.
#[derive(Clone, Copy, PartialEq, Eq, Structural, Debug)]
pub enum Pointee {
    StrData,
    OtherData,
}

/// A source-language type, reduced to the shape the type mapper reads.
#[derive(Clone, Copy, PartialEq, Eq, Structural, Debug)]
pub enum SourceType {
    Bool,
    Char,
    /// Signed integer of the given width.
    Int(IntWidth),
    /// Unsigned integer of the given width.
    Uint(IntWidth),
    Float(FloatWidth),
    /// A bare string slice.
    Str,
    /// A reference, classified by its pointee.
    Ref(Pointee),
    /// A raw pointer, classified by its pointee. Raw pointers to
    /// non-string data have no JVM mapping and are rejected.
    RawPtr(Pointee),
    /// A tuple of the given arity; arity zero is the unit type.
    Tuple(usize),
    /// The never type.
    Never,
    /// Any source type the mapper does not recognize.
    Other,
}

/// Whether the type mapper accepts this type. Only a raw pointer to
/// non-string data is rejected; every other type falls back to some
/// descriptor rather than erroring.
pub open spec fn spec_mappable(t: SourceType) -> bool {
    t != SourceType::RawPtr(Pointee::OtherData)
}

/// The JVM descriptor of a mappable source type: one character for a
/// primitive, `L<binary-name>;` for a reference type, `V` for void.
pub open spec fn spec_descriptor(t: SourceType) -> Seq<char>
    recommends
        spec_mappable(t),
{
    match t {
        SourceType::Bool => "Z"@,
        SourceType::Char => "C"@,
        SourceType::Int(w) => spec_integer_descriptor(w),
        SourceType::Uint(w) => spec_integer_descriptor(w),
        SourceType::Float(w) => match w {
            FloatWidth::W16 => "F"@,
            FloatWidth::W32 => "F"@,
            FloatWidth::W64 => "D"@,
            FloatWidth::W128 => "D"@,
        },
        SourceType::Str => "Ljava/lang/String;"@,
        SourceType::Ref(p) => match p {
            Pointee::StrData => "Ljava/lang/String;"@,
            Pointee::OtherData => "Ljava/lang/Object;"@,
        },
        SourceType::RawPtr(_) => "Ljava/lang/String;"@,
        SourceType::Tuple(arity) => if arity == 0 {
            "V"@
        } else {
            "Ljava/lang/Object;"@
        },
        SourceType::Never => "V"@,
        SourceType::Other => "Ljava/lang/Object;"@,
    }
}

/// The descriptor shared by the signed and unsigned integer of a width:
/// `B`, `S`, `I`, `J` for 8/16/32/64 bits, `I` as the pointer-width
/// fallback, and `java.math.BigInteger` for 128 bits, which no JVM
/// primitive covers.
pub open spec fn spec_integer_descriptor(w: IntWidth) -> Seq<char> {
    match w {
        IntWidth::W8 => "B"@,
        IntWidth::W16 => "S"@,
        IntWidth::W32 => "I"@,
        IntWidth::W64 => "J"@,
        IntWidth::W128 => "Ljava/math/BigInteger;"@,
        IntWidth::WPointer => "I"@,
    }
}

/// Maps a source type to its JVM descriptor string.
pub fn rust_ty_to_jvm_descriptor(rust_ty: &SourceType) -> (r: String)
    requires
        spec_mappable(*rust_ty),
    ensures
        r@ == spec_descriptor(*rust_ty),
{
    let text: &'static str = match rust_ty {
        SourceType::Bool => "Z",
        SourceType::Char => "C",
        SourceType::Int(w) => integer_descriptor_text(w),
        SourceType::Uint(w) => integer_descriptor_text(w),
        SourceType::Float(w) => match w {
            FloatWidth::W16 => "F",
            FloatWidth::W32 => "F",
            FloatWidth::W64 => "D",
            FloatWidth::W128 => "D",
        },
        SourceType::Str => "Ljava/lang/String;",
        SourceType::Ref(p) => match p {
            Pointee::StrData => "Ljava/lang/String;",
            Pointee::OtherData => "Ljava/lang/Object;",
        },
        SourceType::RawPtr(p) => match p {
            Pointee::StrData => "Ljava/lang/String;",
            Pointee::OtherData => vstd::pervasive::unreached(),
        },
        SourceType::Tuple(arity) => if *arity == 0 {
            "V"
        } else {
            "Ljava/lang/Object;"
        },
        SourceType::Never => "V",
        SourceType::Other => "Ljava/lang/Object;",
    };
    String::from_str(text)
}

/// The descriptor text shared by both signedness variants of a width.
fn integer_descriptor_text(w: &IntWidth) -> (r: &'static str)
    ensures
        r@ == spec_integer_descriptor(*w),
{
    match w {
        IntWidth::W8 => "B",
        IntWidth::W16 => "S",
        IntWidth::W32 => "I",
        IntWidth::W64 => "J",
        IntWidth::W128 => "Ljava/math/BigInteger;",
        IntWidth::WPointer => "I",
    }
}

/// Law: for every width, the signed and the unsigned integer type map to
/// the same JVM descriptor; signedness never changes the mapping.
pub proof fn lemma_signed_unsigned_same_descriptor(w: IntWidth)
    ensures
        spec_descriptor(SourceType::Int(w)) == spec_descriptor(SourceType::Uint(w)),
{
}

/// Checks whether the type mapper accepts this type.
pub fn mappable(t: &SourceType) -> (b: bool)
    ensures
        b == spec_mappable(*t),
{
    match t {
        SourceType::RawPtr(Pointee::OtherData) => false,
        _ => true,
    }
}

/// The concatenated descriptors of a parameter list, in order.
pub open spec fn spec_params_descriptor(params: Seq<SourceType>) -> Seq<char>
    decreases params.len(),
{
    if params.len() == 0 {
        Seq::empty()
    } else {
        spec_params_descriptor(params.drop_last()) + spec_descriptor(params.last())
    }
}

/// Unfolding step for prefix-by-prefix reasoning about parameter
/// descriptors.
pub proof fn lemma_params_descriptor_take_step(params: Seq<SourceType>, i: int)
    requires
        0 <= i < params.len(),
    ensures
        spec_params_descriptor(params.take(i + 1)) == spec_params_descriptor(params.take(i))
            + spec_descriptor(params[i]),
{
    assert(params.take(i + 1).drop_last() =~= params.take(i));
    assert(params.take(i + 1).last() == params[i]);
}

/// The method descriptor of a function: its parameter descriptors in
/// parentheses, then its return descriptor. A function named exactly
/// `main` with zero declared parameters instead gets the fixed JVM
/// entry-point descriptor, whatever its declared return type.
pub open spec fn spec_method_descriptor(
    name: Seq<char>,
    params: Seq<SourceType>,
    ret: SourceType,
) -> Seq<char> {
    if name == "main"@ && params.len() == 0 {
        "([Ljava/lang/String;)V"@
    } else {
        "("@ + spec_params_descriptor(params) + ")"@ + spec_descriptor(ret)
    }
}

/// Law: a zero-parameter function named `main` always receives the JVM
/// entry-point descriptor `([Ljava/lang/String;)V`, regardless of its
/// declared return type.
pub proof fn lemma_main_descriptor(ret: SourceType)
    ensures
        spec_method_descriptor("main"@, Seq::<SourceType>::empty(), ret)
            == "([Ljava/lang/String;)V"@,
{
}

/// Derives the method descriptor of a function from its name and
/// signature.
pub fn method_descriptor(name: &String, params: &Vec<SourceType>, ret: &SourceType) -> (r: String)
    requires
        spec_mappable(*ret),
        forall|i: int| 0 <= i < params@.len() ==> spec_mappable(#[trigger] params@[i]),
    ensures
        r@ == spec_method_descriptor(name@, params@, *ret),
{
    let main_name = String::from_str("main");
    if *name == main_name && params.len() == 0 {
        proof {
            assert(params@ =~= Seq::<SourceType>::empty());
        }
        return String::from_str("([Ljava/lang/String;)V");
    }
    let mut s = String::from_str("(");
    let n = params.len();
    let mut i: usize = 0;
    proof {
        assert(params@.take(0) =~= Seq::<SourceType>::empty());
        assert(s@ =~= "("@ + spec_params_descriptor(params@.take(0)));
    }
    while i < n
        invariant
            n == params@.len(),
            0 <= i <= n,
            forall|j: int| 0 <= j < params@.len() ==> spec_mappable(#[trigger] params@[j]),
            s@ == "("@ + spec_params_descriptor(params@.take(i as int)),
        decreases n - i,
    {
        let d = rust_ty_to_jvm_descriptor(&params[i]);
        s.append(d.as_str());
        proof {
            lemma_params_descriptor_take_step(params@, i as int);
            assert(s@ =~= "("@ + spec_params_descriptor(params@.take(i + 1)));
        }
        i = i + 1;
    }
    proof {
        assert(params@.take(n as int) =~= params@);
    }
    s.append(")");
    let ret_descriptor = rust_ty_to_jvm_descriptor(ret);
    s.append(ret_descriptor.as_str());
    proof {
        assert(s@ =~= "("@ + spec_params_descriptor(params@) + ")"@ + spec_descriptor(*ret));
    }
    s
}

} // verus!

