//! The compute side of the downstream packaging step: manifest text,
//! archive entry naming, and entry-point detection.
//!
//! Emitted class files carry a trailing `-<hex>` disambiguation suffix in
//! their file names. Before naming an archive entry the suffix is
//! stripped; two inputs that resolve to the same entry name are a
//! detected collision, never a silent overwrite. A class file is an
//! entry-point candidate when its raw bytes contain both the text `main`
//! and the JVM entry-point descriptor.

use vstd::prelude::*;
use vstd::utf8::encode_utf8;
use crate::error::JarError;

verus! {

/// Whether `c` is a lowercase hexadecimal digit.
pub open spec fn spec_is_lower_hex(c: char) -> bool {
    (('0' as u32) <= (c as u32) && (c as u32) <= ('9' as u32)) || (('a' as u32) <= (c as u32) && (
    c as u32) <= ('f' as u32))
}

/// Whether the name ends with the `.class` extension.
pub open spec fn spec_ends_with_class(name: Seq<char>) -> bool {
    name.len() >= 6 && name.subrange(name.len() - 6, name.len() as int) == ".class"@
}

/// Whether position `i` splits the name into a kept prefix and a
/// stripped suffix: the name ends with `.class`, `name[i]` is `-`, and
/// everything between them is one or more lowercase hex digits.
pub open spec fn spec_split_ok(name: Seq<char>, i: int) -> bool {
    &&& spec_ends_with_class(name)
    &&& 0 <= i
    &&& i + 8 <= name.len()
    &&& name[i] == '-'
    &&& forall|j: int| i + 1 <= j < name.len() - 6 ==> spec_is_lower_hex(#[trigger] name[j])
}

/// The first split position at or after `j`, or the name's length when
/// none exists.
pub open spec fn spec_first_split_from(name: Seq<char>, j: int) -> int
    decreases name.len() - j,
    when 0 <= j <= name.len()
{
    if j >= name.len() {
        name.len() as int
    } else if spec_split_ok(name, j) {
        j
    } else {
        spec_first_split_from(name, j + 1)
    }
}

/// `spec_first_split_from(name, j)` is `i` exactly when no position
/// before `i` splits and `i` either splits or is the end.
pub proof fn lemma_first_split_from_reaches(name: Seq<char>, j: int, i: int)
    requires
        0 <= j <= i <= name.len(),
        forall|k: int| j <= k < i ==> !spec_split_ok(name, k),
        i == name.len() || spec_split_ok(name, i),
    ensures
        spec_first_split_from(name, j) == i,
    decreases i - j,
{
    if j < i {
        assert(!spec_split_ok(name, j));
        lemma_first_split_from_reaches(name, j + 1, i);
    }
}

/// A class file name with its disambiguation suffix stripped: the prefix
/// before the first valid `-<hex>` split, then `.class`; a name with no
/// such split is kept as it is.
pub open spec fn spec_sanitized_class_name(name: Seq<char>) -> Seq<char> {
    let i = spec_first_split_from(name, 0);
    if i < name.len() {
        name.take(i) + ".class"@
    } else {
        name
    }
}

/// Checks whether the name ends with `.class`.
pub fn ends_with_class(name: &str) -> (b: bool)
    ensures
        b == spec_ends_with_class(name@),
{
    let len = name.unicode_len();
    if len < 6 {
        return false;
    }
    let b = name.get_char(len - 6) == '.' && name.get_char(len - 5) == 'c' && name.get_char(len - 4)
        == 'l' && name.get_char(len - 3) == 'a' && name.get_char(len - 2) == 's' && name.get_char(
        len - 1,
    ) == 's';
    proof {
        reveal_strlit(".class");
        let tail = name@.subrange(name@.len() - 6, name@.len() as int);
        assert(tail.len() == 6);
        assert(tail[0] == name@[name@.len() - 6]);
        assert(tail[1] == name@[name@.len() - 5]);
        assert(tail[2] == name@[name@.len() - 4]);
        assert(tail[3] == name@[name@.len() - 3]);
        assert(tail[4] == name@[name@.len() - 2]);
        assert(tail[5] == name@[name@.len() - 1]);
        if b {
            assert(tail =~= ".class"@);
        }
    }
    b
}

/// Checks whether `c` is a lowercase hexadecimal digit.
pub fn is_lower_hex(c: char) -> (b: bool)
    ensures
        b == spec_is_lower_hex(c),
{
    let u = c as u32;
    (u >= 48 && u <= 57) || (u >= 97 && u <= 102)
}

/// Checks that every character in `name[from..to]` is lowercase hex.
fn all_lower_hex(name: &str, from: usize, to: usize) -> (b: bool)
    requires
        from <= to <= name@.len(),
    ensures
        b == forall|j: int| from <= j < to ==> spec_is_lower_hex(#[trigger] name@[j]),
{
    let mut j = from;
    while j < to
        invariant
            from <= j <= to <= name@.len(),
            forall|k: int| from <= k < j ==> spec_is_lower_hex(#[trigger] name@[k]),
        decreases to - j,
    {
        if !is_lower_hex(name.get_char(j)) {
            return false;
        }
        j = j + 1;
    }
    true
}

/// Strips the trailing `-<hex>` disambiguation suffix from a class file
/// name, if one is present before its `.class` extension.
pub fn sanitize_class_file_name(name: &str) -> (r: String)
    ensures
        r@ == spec_sanitized_class_name(name@),
{
    let len = name.unicode_len();
    if !ends_with_class(name) {
        proof {
            lemma_first_split_from_reaches(name@, 0, name@.len() as int);
        }
        return String::from_str(name);
    }
    let mut i: usize = 0;
    while i < len
        invariant
            len == name@.len(),
            0 <= i <= len,
            spec_ends_with_class(name@),
            forall|k: int| 0 <= k < i ==> !spec_split_ok(name@, k),
        decreases len - i,
    {
        if len >= 8 && i <= len - 8 && name.get_char(i) == '-' {
            if all_lower_hex(name, i + 1, len - 6) {
                proof {
                    assert(spec_split_ok(name@, i as int));
                    lemma_first_split_from_reaches(name@, 0, i as int);
                }
                let prefix = name.substring_char(0, i);
                let mut s = String::from_str(prefix);
                s.append(".class");
                proof {
                    assert(prefix@ =~= name@.take(i as int));
                    assert(s@ =~= spec_sanitized_class_name(name@));
                }
                return s;
            }
        }
        proof {
            assert(!spec_split_ok(name@, i as int));
        }
        i = i + 1;
    }
    proof {
        lemma_first_split_from_reaches(name@, 0, name@.len() as int);
    }
    String::from_str(name)
}

/// The start of a path's base name: the position after its last `/`, or
/// zero when it has none.
pub open spec fn spec_base_start(path: Seq<char>) -> int
    decreases path.len(),
{
    if path.len() == 0 {
        0
    } else if path.last() == '/' {
        path.len() as int
    } else {
        spec_base_start(path.drop_last())
    }
}

/// The base name of a path: everything after its last `/`.
pub open spec fn spec_base_name(path: Seq<char>) -> Seq<char> {
    path.subrange(spec_base_start(path), path.len() as int)
}

/// `spec_base_start` is the unique position that sits right after a `/`
/// (or at the start) with no `/` anywhere behind it.
pub proof fn lemma_base_start_unique(path: Seq<char>, s: int)
    requires
        0 <= s <= path.len(),
        s == 0 || path[s - 1] == '/',
        forall|j: int| s <= j < path.len() ==> path[j] != '/',
    ensures
        spec_base_start(path) == s,
    decreases path.len(),
{
    if path.len() == 0 {
    } else if path.last() == '/' {
        assert(s == path.len());
    } else {
        assert(s < path.len());
        assert(forall|j: int| s <= j < path.drop_last().len() ==> path.drop_last()[j] != '/');
        if s > 0 {
            assert(path.drop_last()[s - 1] == '/');
        }
        lemma_base_start_unique(path.drop_last(), s);
    }
}

/// Returns everything after the last `/` of a path; the whole path when
/// it has no `/`.
pub fn class_file_base_name(path: &str) -> (r: String)
    ensures
        r@ == spec_base_name(path@),
{
    let len = path.unicode_len();
    let mut i: usize = len;
    while i > 0
        invariant
            len == path@.len(),
            0 <= i <= len,
            forall|j: int| i <= j < len ==> path@[j] != '/',
        decreases i,
    {
        if path.get_char(i - 1) == '/' {
            proof {
                lemma_base_start_unique(path@, i as int);
            }
            let tail = path.substring_char(i, len);
            return String::from_str(tail);
        }
        i = i - 1;
    }
    proof {
        lemma_base_start_unique(path@, 0);
        assert(path@.subrange(0, path@.len() as int) =~= path@);
    }
    String::from_str(path)
}

/// The suffix-stripped base name under which an input class file enters
/// the archive.
pub open spec fn spec_entry_name(path: Seq<char>) -> Seq<char> {
    spec_sanitized_class_name(spec_base_name(path))
}

/// Derives the archive entry name of one input class file path.
pub fn jar_entry_name(path: &str) -> (r: String)
    ensures
        r@ == spec_entry_name(path@),
{
    let base = class_file_base_name(path);
    sanitize_class_file_name(base.as_str())
}

/// `name` with every `.class` suffix removed from its end.
pub open spec fn spec_strip_class_suffixes(name: Seq<char>) -> Seq<char>
    decreases name.len(),
{
    if spec_ends_with_class(name) {
        spec_strip_class_suffixes(name.take(name.len() - 6))
    } else {
        name
    }
}

/// `name` with every `/` replaced by `.`.
pub open spec fn spec_replace_slashes(name: Seq<char>) -> Seq<char> {
    Seq::new(
        name.len(),
        |i: int|
            if name[i] == '/' {
                '.'
            } else {
                name[i]
            },
    )
}

/// The fully qualified main-class name announced in the manifest: the
/// sanitized file name without its `.class` extension, with path
/// separators turned into dots.
pub open spec fn spec_main_class_fqcn(file_name: Seq<char>) -> Seq<char> {
    spec_replace_slashes(spec_strip_class_suffixes(spec_sanitized_class_name(file_name)))
}

/// Removes every trailing `.class` from a name.
fn strip_class_suffixes(name: &str) -> (r: String)
    ensures
        r@ == spec_strip_class_suffixes(name@),
    decreases name@.len(),
{
    if ends_with_class(name) {
        let len = name.unicode_len();
        let prefix = name.substring_char(0, len - 6);
        proof {
            assert(prefix@ =~= name@.take(name@.len() - 6));
        }
        strip_class_suffixes(prefix)
    } else {
        String::from_str(name)
    }
}

/// Replaces every `/` by `.`.
fn replace_slashes(name: &str) -> (r: String)
    ensures
        r@ == spec_replace_slashes(name@),
{
    let len = name.unicode_len();
    let mut s = String::new();
    let mut i: usize = 0;
    proof {
        assert(s@ =~= spec_replace_slashes(name@).take(0));
    }
    while i < len
        invariant
            len == name@.len(),
            0 <= i <= len,
            s@ == spec_replace_slashes(name@).take(i as int),
        decreases len - i,
    {
        let c = name.get_char(i);
        if c == '/' {
            s.append(".");
            proof {
                reveal_strlit(".");
                assert(s@ =~= spec_replace_slashes(name@).take(i + 1));
            }
        } else {
            let piece = name.substring_char(i, i + 1);
            s.append(piece);
            proof {
                assert(piece@ =~= name@.subrange(i as int, i + 1));
                assert(s@ =~= spec_replace_slashes(name@).take(i + 1));
            }
        }
        i = i + 1;
    }
    proof {
        assert(spec_replace_slashes(name@).take(len as int) =~= spec_replace_slashes(name@));
    }
    s
}

/// Derives the fully qualified main-class name from the entry point's
/// file name.
pub fn main_class_fqcn(file_name: &str) -> (r: String)
    ensures
        r@ == spec_main_class_fqcn(file_name@),
{
    let sanitized = sanitize_class_file_name(file_name);
    let stripped = strip_class_suffixes(sanitized.as_str());
    replace_slashes(stripped.as_str())
}

/// The manifest text of the archive: the fixed version and creator
/// lines, an optional `Main-Class` line, and the closing blank line.
pub open spec fn spec_manifest_content(main_class: Option<Seq<char>>) -> Seq<char> {
    match main_class {
        Some(m) => "Manifest-Version: 1.0\r\nCreated-By: java-linker-rs\r\n"@ + "Main-Class: "@ + m
            + "\r\n"@ + "\r\n"@,
        None => "Manifest-Version: 1.0\r\nCreated-By: java-linker-rs\r\n"@ + "\r\n"@,
    }
}

/// Builds the `META-INF/MANIFEST.MF` text, naming `main_class_name` as
/// the entry point when one was detected.
pub fn create_manifest_content(main_class_name: Option<&str>) -> (r: String)
    ensures
        r@ == spec_manifest_content(
            match main_class_name {
                Some(s) => Some(s@),
                None => None,
            },
        ),
{
    let mut manifest = String::from_str("Manifest-Version: 1.0\r\nCreated-By: java-linker-rs\r\n");
    match main_class_name {
        Some(main_class) => {
            manifest.append("Main-Class: ");
            manifest.append(main_class);
            manifest.append("\r\n");
        },
        None => {},
    }
    manifest.append("\r\n");
    manifest
}

/// Whether `needle` occurs contiguously somewhere in `haystack`.
pub open spec fn spec_contains_seq(haystack: Seq<u8>, needle: Seq<u8>) -> bool {
    exists|i: int|
        0 <= i && i + needle.len() <= haystack.len() && (#[trigger] haystack.subrange(
            i,
            i + needle.len(),
        )) == needle
}

/// Checks whether `needle` matches `haystack` at position `at`.
fn bytes_match_at(haystack: &[u8], needle: &[u8], at: usize) -> (b: bool)
    requires
        at + needle@.len() <= haystack@.len(),
    ensures
        b == (haystack@.subrange(at as int, at + needle@.len()) == needle@),
{
    let hl = haystack.len();
    let n = needle.len();
    let mut j: usize = 0;
    while j < n
        invariant
            hl == haystack@.len(),
            n == needle@.len(),
            at + n <= hl,
            0 <= j <= n,
            forall|k: int| 0 <= k < j ==> haystack@[at + k] == needle@[k],
        decreases n - j,
    {
        if haystack[at + j] != needle[j] {
            proof {
                assert(haystack@.subrange(at as int, at + needle@.len())[j as int] == haystack@[at
                    + j]);
            }
            return false;
        }
        j = j + 1;
    }
    proof {
        assert(haystack@.subrange(at as int, at + needle@.len()) =~= needle@);
    }
    true
}

/// Scans `haystack` for a contiguous occurrence of `needle`.
pub fn contains_bytes(haystack: &[u8], needle: &[u8]) -> (b: bool)
    ensures
        b == spec_contains_seq(haystack@, needle@),
{
    let h = haystack.len();
    let n = needle.len();
    if n > h {
        return false;
    }
    if n == 0 {
        proof {
            assert(haystack@.subrange(0, 0 + needle@.len() as int) =~= needle@);
            assert(spec_contains_seq(haystack@, needle@));
        }
        return true;
    }
    let mut i: usize = 0;
    while i <= h - n
        invariant
            h == haystack@.len(),
            n == needle@.len(),
            1 <= n <= h,
            0 <= i <= h - n + 1,
            forall|k: int|
                0 <= k < i ==> (#[trigger] haystack@.subrange(k, k + needle@.len())) != needle@,
        decreases h + 1 - i,
    {
        if bytes_match_at(haystack, needle, i) {
            return true;
        }
        i = i + 1;
    }
    false
}

/// Checks whether a class file's raw bytes mark it as an entry-point
/// candidate: they contain both the text `main` and the JVM entry-point
/// descriptor `([Ljava/lang/String;)V`.
pub fn class_data_has_main(data: &[u8]) -> (b: bool)
    ensures
        b == (spec_contains_seq(data@, encode_utf8("main"@)) && spec_contains_seq(
            data@,
            encode_utf8("([Ljava/lang/String;)V"@),
        )),
{
    let main_name = "main".as_bytes();
    let main_descriptor = "([Ljava/lang/String;)V".as_bytes();
    contains_bytes(data, main_name) && contains_bytes(data, main_descriptor)
}

/// Plans the archive entry names of the input class files: each input's
/// suffix-stripped base name, in order. Succeeds exactly when all
/// planned names are distinct; two inputs that resolve to the same entry
/// name are a collision, never a silent overwrite.
pub fn plan_jar_entry_names(input_files: &Vec<String>) -> (r: Result<Vec<String>, JarError>)
    ensures
        r is Ok <==> (forall|i: int, j: int|
            0 <= i < j < input_files@.len() ==> spec_entry_name(#[trigger] input_files@[i]@)
                != spec_entry_name(#[trigger] input_files@[j]@)),
        match r {
            Ok(names) => names@.len() == input_files@.len() && forall|i: int|
                0 <= i < names@.len() ==> (#[trigger] names@[i])@ == spec_entry_name(
                    input_files@[i]@,
                ),
            Err(JarError::DuplicateEntryName) => exists|i: int, j: int|
                0 <= i < j < input_files@.len() && spec_entry_name(#[trigger] input_files@[i]@)
                    == spec_entry_name(#[trigger] input_files@[j]@),
        },
{
    let n = input_files.len();
    let mut names: Vec<String> = Vec::new();
    let mut i: usize = 0;
    while i < n
        invariant
            n == input_files@.len(),
            0 <= i <= n,
            names@.len() == i,
            forall|k: int|
                0 <= k < i ==> (#[trigger] names@[k])@ == spec_entry_name(input_files@[k]@),
        decreases n - i,
    {
        let name = jar_entry_name(input_files[i].as_str());
        names.push(name);
        i = i + 1;
    }
    let mut i: usize = 0;
    while i < n
        invariant
            n == input_files@.len(),
            names@.len() == n,
            0 <= i <= n,
            forall|k: int|
                0 <= k < n ==> (#[trigger] names@[k])@ == spec_entry_name(input_files@[k]@),
            forall|k: int, l: int| 0 <= k < i && k < l < n ==> names@[k]@ != names@[l]@,
        decreases n - i,
    {
        let mut j: usize = i + 1;
        while j < n
            invariant
                n == input_files@.len(),
                names@.len() == n,
                0 <= i < n,
                i < j <= n,
                forall|k: int|
                    0 <= k < n ==> (#[trigger] names@[k])@ == spec_entry_name(input_files@[k]@),
                forall|l: int| i < l < j ==> names@[i as int]@ != names@[l]@,
            decreases n - j,
        {
            if names[i] == names[j] {
                return Err(JarError::DuplicateEntryName);
            }
            j = j + 1;
        }
        i = i + 1;
    }
    proof {
        assert forall|a: int, b: int|
            0 <= a < b < input_files@.len() implies spec_entry_name(#[trigger] input_files@[a]@)
            != spec_entry_name(#[trigger] input_files@[b]@) by {
            assert(names@[a]@ == spec_entry_name(input_files@[a]@));
            assert(names@[b]@ == spec_entry_name(input_files@[b]@));
            assert(names@[a]@ != names@[b]@);
        }
    }
    Ok(names)
}

} // verus!
