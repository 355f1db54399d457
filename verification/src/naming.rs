//! Stored-name generation for uploaded files: naming schemes and
//! collision-free names within one upload.

use vstd::prelude::*;
use vstd::relations::injective_on;
use vstd::set_lib::*;

use crate::paths::{is_plain_file_name, spec_extension, spec_file_stem, split_name};
use crate::text::{decimal, digit_char, push_char, push_decimal, push_str, str_eq, zero_pad, zeros, lemma_decimal_len};

verus! {

/// Describes how stored filenames should be generated for a field.
#[derive(Debug, Clone, Copy)]
pub enum FileNaming<'a> {
    /// Keep the sanitized original filename with no prefixing.
    PreserveOriginal,
    /// Prefix the sanitized original filename (no index).
    PrefixOnly { prefix: &'a str },
    /// Prefix with an incrementing index (`prefix_000_original.ext`).
    Indexed { prefix: &'a str, pad_width: usize },
}

impl<'a> FileNaming<'a> {
    /// The stored name for the `index`-th file of a field.
    pub open spec fn spec_build_name(&self, index: nat, original: Seq<char>) -> Seq<char> {
        match *self {
            FileNaming::PreserveOriginal => original,
            FileNaming::PrefixOnly { prefix } => prefix@ + original,
            FileNaming::Indexed { prefix, pad_width } => prefix@ + zero_pad(decimal(index), pad_width as nat)
                + seq!['_'] + original,
        }
    }

    pub fn build_name(&self, index: usize, sanitized_original: &str) -> (res: String)
        ensures
            res@ == self.spec_build_name(index as nat, sanitized_original@),
    {
        match *self {
            FileNaming::PreserveOriginal => sanitized_original.to_owned(),
            FileNaming::PrefixOnly { prefix } => {
                let mut out = prefix.to_owned();
                push_str(&mut out, sanitized_original);
                out
            },
            FileNaming::Indexed { prefix, pad_width } => {
                let mut digits = String::new();
                push_decimal(&mut digits, index as u64);
                let len = digits.unicode_len();
                let mut out = prefix.to_owned();
                let mut i: usize = len;
                while i < pad_width
                    invariant
                        len == decimal(index as nat).len(),
                        len <= i,
                        i <= pad_width || i == len,
                        out@ == prefix@ + zeros((i - len) as nat),
                    decreases pad_width - i,
                {
                    push_char(&mut out, '0');
                    i = i + 1;
                    assert(out@ =~= prefix@ + zeros((i - len) as nat));
                }
                push_str(&mut out, digits.as_str());
                push_char(&mut out, '_');
                push_str(&mut out, sanitized_original);
                proof {
                    assert(digits@ =~= decimal(index as nat));
                    if len < pad_width {
                        assert(i == pad_width);
                    } else {
                        assert(zeros(0) =~= Seq::<char>::empty());
                    }
                    assert(out@ =~= self.spec_build_name(index as nat, sanitized_original@));
                }
                out
            },
        }
    }
}

/// The `k`-th alternative for a name with the given stem and extension:
/// `stem_k.ext`, or `stem_k` when the extension is empty.
pub open spec fn numbered_name(stem: Seq<char>, extension: Seq<char>, k: nat) -> Seq<char> {
    if extension.len() == 0 {
        stem + seq!['_'] + decimal(k)
    } else {
        stem + seq!['_'] + decimal(k) + seq!['.'] + extension
    }
}

/// The views of a list of names.
pub open spec fn name_views(used: Seq<String>) -> Seq<Seq<char>> {
    used.map_values(|s: String| s@)
}

/// The extension of a plain file name, or the empty sequence when it has none.
pub open spec fn extension_or_empty(s: Seq<char>) -> Seq<char> {
    match spec_extension(s) {
        Some(e) => e,
        None => Seq::<char>::empty(),
    }
}

/// `name` is `stem_k(.extension)` for some `k >= 1` such that every
/// alternative numbered below `k` is taken in `taken`.
pub open spec fn is_first_free_numbered(
    stem: Seq<char>,
    extension: Seq<char>,
    taken: Seq<Seq<char>>,
    name: Seq<char>,
) -> bool {
    exists|k: nat|
        #![trigger numbered_name(stem, extension, k)]
        k >= 1 && name == numbered_name(stem, extension, k) && forall|j: nat|
            1 <= j < k ==> taken.contains(#[trigger] numbered_name(stem, extension, j))
}

/// `name` is the first numbered alternative of `candidate` that is not
/// taken in `taken`.
pub open spec fn is_first_free_alternative(
    candidate: Seq<char>,
    taken: Seq<Seq<char>>,
    name: Seq<char>,
) -> bool {
    is_first_free_numbered(spec_file_stem(candidate), extension_or_empty(candidate), taken, name)
}

/// Different digits are different characters.
proof fn lemma_digit_char_injective(a: nat, b: nat)
    requires
        a < 10,
        b < 10,
        digit_char(a) == digit_char(b),
    ensures
        a == b,
{
    assert(a == 0 || a == 1 || a == 2 || a == 3 || a == 4 || a == 5 || a == 6 || a == 7 || a == 8 || a == 9);
    assert(b == 0 || b == 1 || b == 2 || b == 3 || b == 4 || b == 5 || b == 6 || b == 7 || b == 8 || b == 9);
}

/// Distinct numbers have distinct decimal spellings.
pub proof fn lemma_decimal_injective(a: nat, b: nat)
    requires
        decimal(a) == decimal(b),
    ensures
        a == b,
    decreases a + b,
{
    if a < 10 && b < 10 {
        assert(decimal(a) =~= seq![digit_char(a)]);
        assert(decimal(b) =~= seq![digit_char(b)]);
        assert(decimal(a)[0] == digit_char(a));
        assert(decimal(b)[0] == digit_char(b));
        lemma_digit_char_injective(a, b);
    } else if a < 10 {
        lemma_decimal_len(b / 10);
        assert(decimal(a).len() == 1);
    } else if b < 10 {
        lemma_decimal_len(a / 10);
        assert(decimal(b).len() == 1);
    } else {
        assert(decimal(a) =~= decimal(a / 10).push(digit_char(a % 10)));
        assert(decimal(b) =~= decimal(b / 10).push(digit_char(b % 10)));
        assert(decimal(a).last() == digit_char(a % 10));
        assert(decimal(b).last() == digit_char(b % 10));
        lemma_digit_char_injective(a % 10, b % 10);
        assert(decimal(a).drop_last() =~= decimal(a / 10));
        assert(decimal(b).drop_last() =~= decimal(b / 10));
        lemma_decimal_injective(a / 10, b / 10);
    }
}

/// Different numbers give different alternatives.
pub proof fn lemma_numbered_name_injective(stem: Seq<char>, extension: Seq<char>, a: nat, b: nat)
    requires
        numbered_name(stem, extension, a) == numbered_name(stem, extension, b),
    ensures
        a == b,
{
    let na = numbered_name(stem, extension, a);
    let nb = numbered_name(stem, extension, b);
    let p: int = stem.len() as int + 1;
    if extension.len() == 0 {
        assert(na.subrange(p, na.len() as int) =~= decimal(a));
        assert(nb.subrange(p, nb.len() as int) =~= decimal(b));
    } else {
        assert(na.len() == nb.len());
        assert(na.len() == stem.len() + 1 + decimal(a).len() + 1 + extension.len());
        assert(nb.len() == stem.len() + 1 + decimal(b).len() + 1 + extension.len());
        assert(decimal(a).len() == decimal(b).len());
        assert(na.subrange(p, p + decimal(a).len() as int) =~= decimal(a));
        assert(nb.subrange(p, p + decimal(b).len() as int) =~= decimal(b));
    }
    lemma_decimal_injective(a, b);
}

/// If the first `m` alternatives are all in `taken`, then `taken` has at
/// least `m` entries.
proof fn lemma_taken_alternatives_bound(stem: Seq<char>, extension: Seq<char>, taken: Seq<Seq<char>>, m: nat)
    requires
        forall|j: nat| 1 <= j < m + 1 ==> taken.contains(#[trigger] numbered_name(stem, extension, j)),
    ensures
        m <= taken.len(),
{
    let f = |j: int| numbered_name(stem, extension, j as nat);
    let x = set_int_range(1, m as int + 1);
    lemma_int_range(1, m as int + 1);
    let y = x.map(f);
    assert forall|a: int, b: int| x.contains(a) && x.contains(b) && #[trigger] f(a) == #[trigger] f(b) implies a == b by {
        lemma_numbered_name_injective(stem, extension, a as nat, b as nat);
    }
    assert(injective_on(f, x));
    lemma_map_size(x, y, f);
    assert forall|n: Seq<char>| y.contains(n) implies taken.to_set().contains(n) by {
        let j = choose|j: int| x.contains(j) && f(j) == n;
        assert(taken.contains(numbered_name(stem, extension, j as nat)));
    }
    taken.lemma_cardinality_of_set();
    lemma_len_subset(y, taken.to_set());
}

/// Whether `name` is already in `used`.
fn contains_name(used: &Vec<String>, name: &str) -> (res: bool)
    ensures
        res == name_views(used@).contains(name@),
{
    let mut i: usize = 0;
    while i < used.len()
        invariant
            i <= used.len(),
            forall|j: int| 0 <= j < i ==> used@[j]@ != name@,
        decreases used.len() - i,
    {
        if str_eq(used[i].as_str(), name) {
            assert(name_views(used@)[i as int] == name@);
            return true;
        }
        i = i + 1;
    }
    proof {
        if name_views(used@).contains(name@) {
            let j = choose|j: int| 0 <= j < name_views(used@).len() && name_views(used@)[j] == name@;
            assert(used@[j]@ == name@);
        }
    }
    false
}

/// Builds `stem_k` or `stem_k.extension`.
fn build_numbered_name(stem: &str, extension: &str, k: u64) -> (res: String)
    ensures
        res@ == numbered_name(stem@, extension@, k as nat),
{
    let mut out = stem.to_owned();
    push_char(&mut out, '_');
    push_decimal(&mut out, k);
    if !extension.is_empty() {
        push_char(&mut out, '.');
        push_str(&mut out, extension);
    }
    assert(out@ =~= numbered_name(stem@, extension@, k as nat));
    out
}

/// Returns `candidate` if no earlier file of the upload took that name,
/// otherwise the first free numbered alternative `stem_1.ext`, `stem_2.ext`,
/// ...; the returned name is recorded in `used`. The stem and extension are
/// those that `split_name` gives: for a plain file name they are stated
/// exactly; for any other name the result is still the first free
/// alternative of the pair that `split_name` returned.
pub fn unique_name(candidate: String, used: &mut Vec<String>) -> (res: String)
    requires
        old(used)@.len() < u64::MAX,
    ensures
        !name_views(old(used)@).contains(res@),
        final(used)@ == old(used)@.push(res),
        !name_views(old(used)@).contains(candidate@) ==> res@ == candidate@,
        name_views(old(used)@).contains(candidate@) ==> exists|stem: Seq<char>, extension: Seq<char>|
            #[trigger] is_first_free_numbered(stem, extension, name_views(old(used)@), res@),
        name_views(old(used)@).contains(candidate@) && is_plain_file_name(candidate@)
            ==> is_first_free_alternative(candidate@, name_views(old(used)@), res@),
{
    if !contains_name(used, candidate.as_str()) {
        let kept = candidate.clone();
        used.push(candidate);
        return kept;
    }
    let (stem, extension) = split_name(candidate.as_str());
    let ghost taken = name_views(used@);
    let mut counter: u64 = 1;
    let mut attempt = build_numbered_name(stem.as_str(), extension.as_str(), counter);
    while contains_name(used, attempt.as_str())
        invariant
            taken == name_views(used@),
            used@.len() < u64::MAX,
            1 <= counter <= used@.len() + 1,
            attempt@ == numbered_name(stem@, extension@, counter as nat),
            forall|j: nat| 1 <= j < counter ==> taken.contains(#[trigger] numbered_name(stem@, extension@, j)),
        decreases used@.len() + 1 - counter,
    {
        proof {
            assert forall|j: nat| 1 <= j < counter + 1 implies taken.contains(#[trigger] numbered_name(stem@, extension@, j)) by {
                if j == counter {
                    assert(numbered_name(stem@, extension@, j) == attempt@);
                }
            }
            lemma_taken_alternatives_bound(stem@, extension@, taken, counter as nat);
        }
        counter = counter + 1;
        attempt = build_numbered_name(stem.as_str(), extension.as_str(), counter);
    }
    let kept = attempt.clone();
    used.push(attempt);
    proof {
        assert(taken == name_views(old(used)@));
        assert(is_first_free_numbered(stem@, extension@, taken, kept@)) by {
            assert(numbered_name(stem@, extension@, counter as nat) == kept@);
        }
        if name_views(old(used)@).contains(candidate@) && is_plain_file_name(candidate@) {
            let k = counter as nat;
            let st = spec_file_stem(candidate@);
            let ex = extension_or_empty(candidate@);
            assert(st == stem@);
            assert(ex == extension@);
            assert(taken == name_views(old(used)@));
            assert(k >= 1 && kept@ == numbered_name(st, ex, k) && forall|j: nat|
                1 <= j < k ==> taken.contains(#[trigger] numbered_name(st, ex, j)));
            assert(is_first_free_alternative(candidate@, taken, kept@));
        }
    }
    kept
}

} // verus!
