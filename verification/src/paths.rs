//! File-name helpers: the stem and extension of a bare file name, as
//! `std::path::Path` computes them.

use vstd::prelude::*;

use crate::text::to_owned_string;

verus! {

/// Index of the last occurrence of `c` in `s`, or `-1`.
pub open spec fn last_index_of(s: Seq<char>, c: char) -> int
    decreases s.len(),
{
    if s.len() == 0 {
        -1
    } else if s.last() == c {
        s.len() - 1
    } else {
        last_index_of(s.drop_last(), c)
    }
}

/// A single path component that every platform reads the same way: not
/// empty, not `.` or `..`, and free of `/`, `\` and `:`.
pub open spec fn is_plain_file_name(s: Seq<char>) -> bool {
    &&& s.len() > 0
    &&& s != seq!['.']
    &&& s != seq!['.', '.']
    &&& forall|i: int| 0 <= i < s.len() ==> #[trigger] s[i] != '/' && s[i] != '\\' && s[i] != ':'
}

/// The file stem of a plain file name: everything before the last `.`,
/// unless that dot is the first character or there is none.
pub open spec fn spec_file_stem(s: Seq<char>) -> Seq<char> {
    let k = last_index_of(s, '.');
    if k <= 0 {
        s
    } else {
        s.subrange(0, k)
    }
}

/// The extension of a plain file name: everything after the last `.`, when
/// that dot is not the first character.
pub open spec fn spec_extension(s: Seq<char>) -> Option<Seq<char>> {
    let k = last_index_of(s, '.');
    if k <= 0 {
        None
    } else {
        Some(s.subrange(k + 1, s.len() as int))
    }
}

/// Calls `Path::file_stem` on `name`. An empty path has no file name and so
/// no stem. For a plain file name the result is the documented stem; for
/// other paths (with separators, drive prefixes or `..`) nothing is claimed,
/// since separators differ between platforms.
#[verifier::external_body]
fn path_file_stem(name: &str) -> (res: Option<String>)
    ensures
        is_plain_file_name(name@) ==> res is Some && res->0@ == spec_file_stem(name@),
        name@.len() == 0 ==> res is None,
{
    std::path::Path::new(name).file_stem().and_then(|s| s.to_str()).map(|s| s.to_string())
}

/// Calls `Path::extension` on `name`. An empty path has no file name and so
/// no extension. For a plain file name the result is the documented
/// extension; for other paths nothing is claimed.
#[verifier::external_body]
fn path_extension(name: &str) -> (res: Option<String>)
    ensures
        is_plain_file_name(name@) ==> match res {
            Some(e) => spec_extension(name@) == Some(e@),
            None => spec_extension(name@) is None,
        },
        name@.len() == 0 ==> res is None,
{
    std::path::Path::new(name).extension().and_then(|s| s.to_str()).map(|s| s.to_string())
}

/// The stem of `name`, or `default` when the path has none.
pub fn file_stem_or(name: &str, default: &str) -> (res: String)
    ensures
        is_plain_file_name(name@) ==> res@ == spec_file_stem(name@),
{
    match path_file_stem(name) {
        Some(stem) => stem,
        None => to_owned_string(default),
    }
}

/// The extension of `name`, or the empty string when it has none.
pub fn extension_or_empty(name: &str) -> (res: String)
    ensures
        is_plain_file_name(name@) ==> res@ == match spec_extension(name@) {
            Some(e) => e,
            None => Seq::<char>::empty(),
        },
        name@.len() == 0 ==> res@.len() == 0,
{
    match path_extension(name) {
        Some(ext) => ext,
        None => String::new(),
    }
}

/// Splits a file name into its stem and extension (empty when absent); a
/// path without a stem keeps the whole name as stem.
pub fn split_name(name: &str) -> (res: (String, String))
    ensures
        is_plain_file_name(name@) ==> res.0@ == spec_file_stem(name@),
        is_plain_file_name(name@) ==> res.1@ == match spec_extension(name@) {
            Some(e) => e,
            None => Seq::<char>::empty(),
        },
{
    let stem = file_stem_or(name, name);
    let extension = extension_or_empty(name);
    (stem, extension)
}

/// Putting a stem and its extension back together gives the name again.
pub proof fn lemma_split_name_rejoins(s: Seq<char>)
    requires
        is_plain_file_name(s),
    ensures
        match spec_extension(s) {
            Some(e) => spec_file_stem(s) + seq!['.'] + e == s,
            None => spec_file_stem(s) == s,
        },
{
    let k = last_index_of(s, '.');
    if k > 0 {
        lemma_last_index_of_bounds(s, '.');
        assert(spec_file_stem(s) + seq!['.'] + s.subrange(k + 1, s.len() as int) =~= s);
    }
}

/// `last_index_of` points at an occurrence, or is `-1`.
pub proof fn lemma_last_index_of_bounds(s: Seq<char>, c: char)
    ensures
        -1 <= last_index_of(s, c) < s.len(),
        last_index_of(s, c) >= 0 ==> s[last_index_of(s, c)] == c,
        forall|j: int| last_index_of(s, c) < j < s.len() ==> s[j] != c,
    decreases s.len(),
{
    if s.len() > 0 && s.last() != c {
        lemma_last_index_of_bounds(s.drop_last(), c);
        assert forall|j: int| last_index_of(s, c) < j < s.len() implies s[j] != c by {
            if j < s.len() - 1 {
                assert(s.drop_last()[j] == s[j]);
            }
        }
    }
}

} // verus!
