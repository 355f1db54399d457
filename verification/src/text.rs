//! Character-level string helpers shared by every module.

use vstd::prelude::*;

verus! {

/// Unicode `White_Space` property, as `char::is_whitespace` documents it.
pub open spec fn spec_is_whitespace(c: char) -> bool {
    let u = c as u32;
    ||| (0x9 <= u && u <= 0xD)
    ||| u == 0x20
    ||| u == 0x85
    ||| u == 0xA0
    ||| u == 0x1680
    ||| (0x2000 <= u && u <= 0x200A)
    ||| u == 0x2028
    ||| u == 0x2029
    ||| u == 0x202F
    ||| u == 0x205F
    ||| u == 0x3000
}

/// Returns whether `c` has the Unicode `White_Space` property.
pub fn is_whitespace(c: char) -> (res: bool)
    ensures
        res == spec_is_whitespace(c),
{
    let u = c as u32;
    (0x9 <= u && u <= 0xD) || u == 0x20 || u == 0x85 || u == 0xA0 || u == 0x1680 || (0x2000 <= u
        && u <= 0x200A) || u == 0x2028 || u == 0x2029 || u == 0x202F || u == 0x205F || u == 0x3000
}

/// The characters of `s`, in order.
pub fn chars_of(s: &str) -> (res: Vec<char>)
    ensures
        res@ == s@,
{
    let mut out: Vec<char> = Vec::new();
    let ghost whole = s@;
    for c in it: s.chars()
        invariant
            it.seq() == whole,
            out@ == it.seq().take(it.index() as int),
    {
        out.push(c);
    }
    assert(out@ =~= whole);
    out
}


/// Appends `c` to `s`.
#[verifier::external_body]
pub(crate) fn push_char(s: &mut String, c: char)
    ensures
        final(s)@ == old(s)@.push(c),
{
    s.push(c);
}

/// Appends `t` to `s`.
pub fn push_str(s: &mut String, t: &str)
    ensures
        final(s)@ == old(s)@ + t@,
{
    s.append(t);
}

/// A new string holding the characters of `s`.
pub fn to_owned_string(s: &str) -> (res: String)
    ensures
        res@ == s@,
{
    s.to_owned()
}

/// Compares two strings character by character.
pub(crate) fn str_eq(a: &str, b: &str) -> (res: bool)
    ensures
        res == (a@ == b@),
{
    let x = chars_of(a);
    let y = chars_of(b);
    if x.len() != y.len() {
        return false;
    }
    let mut i: usize = 0;
    while i < x.len()
        invariant
            i <= x.len(),
            x.len() == y.len(),
            x@ == a@,
            y@ == b@,
            forall|j: int| 0 <= j < i ==> x@[j] == y@[j],
        decreases x.len() - i,
    {
        if x[i] != y[i] {
            return false;
        }
        i = i + 1;
    }
    assert(x@ =~= y@);
    true
}

/// A string built from `v[lo..hi]`.
pub fn string_from_range(v: &Vec<char>, lo: usize, hi: usize) -> (res: String)
    requires
        lo <= hi <= v.len(),
    ensures
        res@ == v@.subrange(lo as int, hi as int),
{
    let mut out = String::new();
    let mut i = lo;
    while i < hi
        invariant
            lo <= i <= hi <= v.len(),
            out@ == v@.subrange(lo as int, i as int),
        decreases hi - i,
    {
        push_char(&mut out, v[i]);
        i = i + 1;
        assert(out@ =~= v@.subrange(lo as int, i as int));
    }
    out
}

/// A string built from all of `v`.
pub fn string_from_chars(v: &Vec<char>) -> (res: String)
    ensures
        res@ == v@,
{
    let res = string_from_range(v, 0, v.len());
    assert(v@.subrange(0, v@.len() as int) =~= v@);
    res
}

/// `s` without its leading whitespace.
pub open spec fn trim_start(s: Seq<char>) -> Seq<char>
    decreases s.len(),
{
    if s.len() > 0 && spec_is_whitespace(s[0]) {
        trim_start(s.drop_first())
    } else {
        s
    }
}

/// `s` without its trailing whitespace.
pub open spec fn trim_end(s: Seq<char>) -> Seq<char>
    decreases s.len(),
{
    if s.len() > 0 && spec_is_whitespace(s.last()) {
        trim_end(s.drop_last())
    } else {
        s
    }
}

/// `s` without leading and trailing whitespace, as `str::trim` documents it.
pub open spec fn trim(s: Seq<char>) -> Seq<char> {
    trim_end(trim_start(s))
}

proof fn lemma_trim_start_step(s: Seq<char>, lo: int)
    requires
        0 <= lo < s.len(),
        spec_is_whitespace(s[lo]),
    ensures
        trim_start(s.subrange(lo, s.len() as int)) == trim_start(s.subrange(lo + 1, s.len() as int)),
{
    let t = s.subrange(lo, s.len() as int);
    assert(t.drop_first() =~= s.subrange(lo + 1, s.len() as int));
}

proof fn lemma_trim_end_step(s: Seq<char>, hi: int)
    requires
        0 < hi <= s.len(),
        spec_is_whitespace(s[hi - 1]),
    ensures
        trim_end(s.subrange(0, hi)) == trim_end(s.subrange(0, hi - 1)),
{
    let t = s.subrange(0, hi);
    assert(t.drop_last() =~= s.subrange(0, hi - 1));
}

/// `s` without trailing whitespace, as `str::trim_end` does.
pub fn trim_end_str(s: &str) -> (res: String)
    ensures
        res@ == trim_end(s@),
{
    let v = chars_of(s);
    let mut hi: usize = v.len();
    assert(v@.subrange(0, v@.len() as int) =~= v@);
    while hi > 0 && is_whitespace(v[hi - 1])
        invariant
            hi <= v.len(),
            v@ == s@,
            trim_end(v@) == trim_end(v@.subrange(0, hi as int)),
        decreases hi,
    {
        proof {
            let t = v@.subrange(0, hi as int);
            assert(t.drop_last() =~= v@.subrange(0, hi - 1));
        }
        hi = hi - 1;
    }
    string_from_range(&v, 0, hi)
}

/// `v[lo..hi]` with leading and trailing whitespace removed.
pub fn trim_range(v: &Vec<char>, lo: usize, hi: usize) -> (res: String)
    requires
        lo <= hi <= v.len(),
    ensures
        res@ == trim(v@.subrange(lo as int, hi as int)),
{
    let ghost t = v@.subrange(lo as int, hi as int);
    let mut a: usize = lo;
    assert(t.subrange(0, t.len() as int) =~= t);
    while a < hi && is_whitespace(v[a])
        invariant
            lo <= a <= hi <= v.len(),
            t == v@.subrange(lo as int, hi as int),
            trim_start(t) == trim_start(t.subrange(a - lo, t.len() as int)),
        decreases hi - a,
    {
        proof {
            lemma_trim_start_step(t, (a - lo) as int);
        }
        a = a + 1;
    }
    let ghost rest = t.subrange(a - lo, t.len() as int);
    assert(rest =~= v@.subrange(a as int, hi as int));
    let mut b: usize = hi;
    assert(rest.subrange(0, rest.len() as int) =~= rest);
    while b > a && is_whitespace(v[b - 1])
        invariant
            lo <= a <= b <= hi <= v.len(),
            rest == v@.subrange(a as int, hi as int),
            trim_end(rest) == trim_end(rest.subrange(0, b - a)),
        decreases b,
    {
        proof {
            lemma_trim_end_step(rest, (b - a) as int);
        }
        b = b - 1;
    }
    let res = string_from_range(v, a, b);
    assert(rest.subrange(0, b - a) =~= v@.subrange(a as int, b as int));
    res
}

/// `s` with leading and trailing whitespace removed, as `str::trim` does.
pub fn trim_str(s: &str) -> (res: String)
    ensures
        res@ == trim(s@),
{
    let v = chars_of(s);
    assert(v@.subrange(0, v@.len() as int) =~= v@);
    trim_range(&v, 0, v.len())
}

/// The ASCII digit for `d < 10`.
pub open spec fn digit_char(d: nat) -> char {
    if d == 0 {
        '0'
    } else if d == 1 {
        '1'
    } else if d == 2 {
        '2'
    } else if d == 3 {
        '3'
    } else if d == 4 {
        '4'
    } else if d == 5 {
        '5'
    } else if d == 6 {
        '6'
    } else if d == 7 {
        '7'
    } else if d == 8 {
        '8'
    } else {
        '9'
    }
}

/// The ASCII digit for `d < 10`.
pub fn digit(d: u64) -> (c: char)
    requires
        d < 10,
    ensures
        c == digit_char(d as nat),
{
    if d == 0 {
        '0'
    } else if d == 1 {
        '1'
    } else if d == 2 {
        '2'
    } else if d == 3 {
        '3'
    } else if d == 4 {
        '4'
    } else if d == 5 {
        '5'
    } else if d == 6 {
        '6'
    } else if d == 7 {
        '7'
    } else if d == 8 {
        '8'
    } else {
        '9'
    }
}

/// Decimal spelling of `n`, without leading zeros.
pub open spec fn decimal(n: nat) -> Seq<char>
    decreases n,
{
    if n < 10 {
        seq![digit_char(n)]
    } else {
        decimal(n / 10).push(digit_char(n % 10))
    }
}

/// Decimal spelling of a signed integer, with a leading `-` when negative.
pub open spec fn signed_decimal(i: int) -> Seq<char> {
    if i < 0 {
        seq!['-'] + decimal((-i) as nat)
    } else {
        decimal(i as nat)
    }
}

/// `k` copies of `'0'`.
pub open spec fn zeros(k: nat) -> Seq<char> {
    Seq::new(k, |_i: int| '0')
}

/// `s` padded on the left with zeros to at least `width` characters, as the
/// `{:0width$}` format does for an unsigned integer.
pub open spec fn zero_pad(s: Seq<char>, width: nat) -> Seq<char> {
    if s.len() < width {
        zeros((width - s.len()) as nat) + s
    } else {
        s
    }
}

/// Appends the decimal spelling of `n` to `out`.
pub fn push_decimal(out: &mut String, n: u64)
    ensures
        final(out)@ == old(out)@ + decimal(n as nat),
    decreases n,
{
    if n < 10 {
        let c = digit(n);
        push_char(out, c);
        assert(decimal(n as nat) =~= seq![c]);
    } else {
        push_decimal(out, n / 10);
        let d = n % 10;
        let c = digit(d);
        push_char(out, c);
    }
}

/// The decimal spelling of `n`.
pub fn decimal_string(n: u64) -> (res: String)
    ensures
        res@ == decimal(n as nat),
{
    let mut out = String::new();
    push_decimal(&mut out, n);
    assert(out@ =~= decimal(n as nat));
    out
}

/// Appends the decimal spelling of a signed integer to `out`.
pub fn push_signed_decimal(out: &mut String, i: i64)
    ensures
        final(out)@ == old(out)@ + signed_decimal(i as int),
{
    if i < 0 {
        push_char(out, '-');
        let m: u64 = (-(i as i128)) as u64;
        push_decimal(out, m);
        assert(out@ =~= old(out)@ + signed_decimal(i as int));
    } else {
        push_decimal(out, i as u64);
    }
}

/// Length of the decimal spelling: at least one digit.
pub proof fn lemma_decimal_len(n: nat)
    ensures
        decimal(n).len() >= 1,
    decreases n,
{
    if n >= 10 {
        lemma_decimal_len(n / 10);
    }
}


proof fn lemma_digit_char_value(d: nat)
    requires
        d < 10,
    ensures
        is_digit(digit_char(d)),
        digit_char(d) as int - '0' as int == d,
{
}

/// The decimal spelling of `n` is a run of digits whose value is `n`.
pub proof fn lemma_decimal_digits(n: nat)
    ensures
        decimal(n).len() >= 1,
        all_digits(decimal(n)),
        digits_value(decimal(n)) == n,
    decreases n,
{
    if n < 10 {
        lemma_digit_char_value(n);
        let d = decimal(n);
        assert(d =~= seq![digit_char(n)]);
        assert(d.drop_last() =~= Seq::<char>::empty());
        assert(digits_value(d.drop_last()) == 0);
        assert(digits_value(d) == 0 * 10 + (d.last() as int - '0' as int));
    } else {
        lemma_decimal_digits(n / 10);
        lemma_digit_char_value(n % 10);
        let d = decimal(n);
        assert(d.drop_last() =~= decimal(n / 10));
        assert forall|i: int| 0 <= i < d.len() implies #[trigger] is_digit(d[i]) by {
            if i < d.len() - 1 {
                assert(d[i] == decimal(n / 10)[i]);
            }
        }
        assert(d.last() == digit_char(n % 10));
        assert(digits_value(d) == digits_value(d.drop_last()) * 10 + (d.last() as int - '0' as int));
        assert((n / 10) * 10 + n % 10 == n) by (nonlinear_arith);
        assert(digits_value(d.drop_last()) == n / 10);
    }
}

/// A text that starts and ends with characters other than whitespace is
/// its own trim.
pub proof fn lemma_trim_noop(s: Seq<char>)
    requires
        s.len() > 0,
        !spec_is_whitespace(s[0]),
        !spec_is_whitespace(s.last()),
    ensures
        trim(s) == s,
{
    assert(trim_start(s) == s);
}

/// Parsing the decimal spelling of an `i64` gives it back.
pub proof fn lemma_parse_signed_decimal(v: i64)
    ensures
        parse_i64(signed_decimal(v as int)) == Some(v as int),
{
    if v < 0 {
        let m = (-(v as int)) as nat;
        lemma_decimal_digits(m);
        let s = signed_decimal(v as int);
        assert(s == seq!['-'] + decimal(m));
        assert(has_sign(s));
        assert(unsigned_part(s) =~= decimal(m));
    } else {
        lemma_decimal_digits(v as nat);
        let s = decimal(v as nat);
        assert(!has_sign(s)) by {
            assert(is_digit(s[0]));
        }
        assert(unsigned_part(s) == s);
    }
}

/// ASCII lower-casing of one character, as `char::to_ascii_lowercase` does.
pub open spec fn spec_ascii_lower(c: char) -> char {
    if 'A' <= c && c <= 'Z' {
        ((c as u32) + 32) as char
    } else {
        c
    }
}

/// Bytes of a character in UTF-8.
pub open spec fn utf8_width(c: char) -> nat {
    if (c as u32) < 0x80 {
        1
    } else if (c as u32) < 0x800 {
        2
    } else if (c as u32) < 0x10000 {
        3
    } else {
        4
    }
}

/// Bytes of a text in UTF-8.
pub open spec fn utf8_len(s: Seq<char>) -> nat
    decreases s.len(),
{
    if s.len() == 0 {
        0
    } else {
        utf8_len(s.drop_last()) + utf8_width(s.last())
    }
}

/// ASCII lower-casing of a string, as `str::to_ascii_lowercase` does.
pub open spec fn ascii_lower(s: Seq<char>) -> Seq<char> {
    s.map_values(|c: char| spec_ascii_lower(c))
}

/// Lower-cases one ASCII letter; other characters are kept.
pub fn ascii_lower_char(c: char) -> (res: char)
    ensures
        res == spec_ascii_lower(c),
{
    if 'A' <= c && c <= 'Z' {
        let b = c as u8;
        (b + 32) as char
    } else {
        c
    }
}

/// Lower-cases the ASCII letters of `s`.
pub fn to_ascii_lowercase(s: &str) -> (res: String)
    ensures
        res@ == ascii_lower(s@),
{
    let v = chars_of(s);
    let mut out = String::new();
    let mut i: usize = 0;
    while i < v.len()
        invariant
            i <= v.len(),
            v@ == s@,
            out@ == ascii_lower(v@.subrange(0, i as int)),
        decreases v.len() - i,
    {
        let c = ascii_lower_char(v[i]);
        push_char(&mut out, c);
        i = i + 1;
        assert(out@ =~= ascii_lower(v@.subrange(0, i as int)));
    }
    assert(v@.subrange(0, v@.len() as int) =~= v@);
    out
}


/// The parts joined with `sep` between consecutive parts, as `[T]::join` does.
pub open spec fn join(parts: Seq<Seq<char>>, sep: Seq<char>) -> Seq<char>
    decreases parts.len(),
{
    if parts.len() == 0 {
        Seq::empty()
    } else if parts.len() == 1 {
        parts[0]
    } else {
        join(parts.drop_last(), sep) + sep + parts.last()
    }
}

/// `sep` occurs in `s` at position `i`.
pub open spec fn occurs_at(s: Seq<char>, sep: Seq<char>, i: int) -> bool {
    0 <= i && i + sep.len() <= s.len() && s.subrange(i, i + sep.len()) == sep
}

/// First position at or after `from` where `sep` occurs in `s`, or `-1`.
pub open spec fn find_from(s: Seq<char>, sep: Seq<char>, from: int) -> int
    decreases s.len() + 1 - from,
{
    if from < 0 || from + sep.len() > s.len() {
        -1
    } else if occurs_at(s, sep, from) {
        from
    } else {
        find_from(s, sep, from + 1)
    }
}

/// The pieces of `s[from..]` between non-overlapping occurrences of a
/// non-empty `sep`, scanning from the left, as `str::split` does.
pub open spec fn split_from(s: Seq<char>, sep: Seq<char>, from: int) -> Seq<Seq<char>>
    decreases s.len() - from,
{
    let k = find_from(s, sep, from);
    if k < from || sep.len() == 0 || from < 0 || from > s.len() || k + sep.len() > s.len() {
        seq![s.subrange(from, s.len() as int)]
    } else {
        seq![s.subrange(from, k)] + split_from(s, sep, k + sep.len())
    }
}

/// `s` split at every occurrence of `sep`.
pub open spec fn split(s: Seq<char>, sep: Seq<char>) -> Seq<Seq<char>> {
    split_from(s, sep, 0)
}

/// Whether `sep` occurs in `v` at `pos`.
fn occurs_at_exec(v: &Vec<char>, sep: &Vec<char>, pos: usize) -> (res: bool)
    requires
        pos <= v.len(),
    ensures
        res == occurs_at(v@, sep@, pos as int),
{
    if sep.len() > v.len() - pos {
        return false;
    }
    let mut j: usize = 0;
    while j < sep.len()
        invariant
            pos + sep.len() <= v.len(),
            j <= sep.len(),
            forall|k: int| 0 <= k < j ==> v@[pos + k] == #[trigger] sep@[k],
        decreases sep.len() - j,
    {
        if v[pos + j] != sep[j] {
            assert(v@.subrange(pos as int, pos + sep.len())[j as int] != sep@[j as int]);
            return false;
        }
        j = j + 1;
    }
    assert(v@.subrange(pos as int, pos + sep.len()) =~= sep@);
    true
}

/// The views of a list of strings.
pub open spec fn views_of(v: Seq<String>) -> Seq<Seq<char>> {
    v.map_values(|s: String| s@)
}

/// The pieces of `s` between occurrences of `sep`, each trimmed.
pub open spec fn split_trim(s: Seq<char>, sep: Seq<char>) -> Seq<Seq<char>> {
    split(s, sep).map_values(|p: Seq<char>| trim(p))
}

/// Splits `text` at every occurrence of a non-empty `sep` and trims each
/// piece, as `text.split(sep).map(str::trim)` does.
pub fn split_trimmed(text: &str, sep: &str) -> (res: Vec<String>)
    requires
        sep@.len() > 0,
    ensures
        views_of(res@) == split_trim(text@, sep@),
{
    let v = chars_of(text);
    let sv = chars_of(sep);
    let mut out: Vec<String> = Vec::new();
    let mut start: usize = 0;
    let mut pos: usize = 0;
    while pos <= v.len() && sv.len() <= v.len() - pos
        invariant
            v@ == text@,
            sv@ == sep@,
            sv@.len() > 0,
            start <= pos <= v.len(),
            find_from(v@, sv@, start as int) == find_from(v@, sv@, pos as int),
            views_of(out@) + split_from(v@, sv@, start as int).map_values(|p: Seq<char>| trim(p))
                == split_trim(text@, sep@),
        decreases v.len() + 1 - pos,
    {
        if occurs_at_exec(&v, &sv, pos) {
            let piece = trim_range(&v, start, pos);
            let ghost old_out = views_of(out@);
            out.push(piece);
            proof {
                let tail = split_from(v@, sv@, (pos + sv@.len()) as int);
                assert(split_from(v@, sv@, start as int) == seq![v@.subrange(start as int, pos as int)] + tail);
                assert(views_of(out@) =~= old_out.push(trim(v@.subrange(start as int, pos as int))));
                assert(split_from(v@, sv@, start as int).map_values(|p: Seq<char>| trim(p))
                    =~= seq![trim(v@.subrange(start as int, pos as int))] + tail.map_values(|p: Seq<char>| trim(p)));
                assert(views_of(out@) + tail.map_values(|p: Seq<char>| trim(p))
                    =~= old_out + split_from(v@, sv@, start as int).map_values(|p: Seq<char>| trim(p)));
            }
            start = pos + sv.len();
            pos = start;
        } else {
            pos = pos + 1;
        }
    }
    let piece = trim_range(&v, start, v.len());
    let ghost old_out = views_of(out@);
    out.push(piece);
    proof {
        assert(split_from(v@, sv@, start as int) == seq![v@.subrange(start as int, v@.len() as int)]);
        assert(views_of(out@) =~= old_out.push(trim(v@.subrange(start as int, v@.len() as int))));
        assert(split_from(v@, sv@, start as int).map_values(|p: Seq<char>| trim(p))
            =~= seq![trim(v@.subrange(start as int, v@.len() as int))]);
    }
    out
}


proof fn lemma_trim_start_shape(s: Seq<char>)
    ensures
        trim_start(s).len() == 0 || !spec_is_whitespace(trim_start(s)[0]),
    decreases s.len(),
{
    if s.len() > 0 && spec_is_whitespace(s[0]) {
        lemma_trim_start_shape(s.drop_first());
    }
}

proof fn lemma_trim_end_shape(s: Seq<char>)
    ensures
        trim_end(s).len() <= s.len(),
        trim_end(s) == s.take(trim_end(s).len() as int),
        trim_end(s).len() == 0 || !spec_is_whitespace(trim_end(s).last()),
    decreases s.len(),
{
    if s.len() > 0 && spec_is_whitespace(s.last()) {
        lemma_trim_end_shape(s.drop_last());
        let t = trim_end(s.drop_last());
        assert(s.drop_last().take(t.len() as int) =~= s.take(t.len() as int));
    } else {
        assert(s.take(s.len() as int) =~= s);
    }
}

/// Trimming a trimmed text changes nothing.
pub proof fn lemma_trim_idempotent(s: Seq<char>)
    ensures
        trim(trim(s)) == trim(s),
{
    let t = trim_start(s);
    let u = trim_end(t);
    lemma_trim_start_shape(s);
    lemma_trim_end_shape(t);
    if u.len() > 0 {
        assert(u[0] == t[0]);
    }
    assert(trim_start(u) == u);
    lemma_trim_end_shape(u);
    if u.len() > 0 {
        assert(!spec_is_whitespace(u.last()));
    }
    assert(trim_end(u) == u);
}

proof fn lemma_join_front(parts: Seq<Seq<char>>, sep: Seq<char>)
    requires
        parts.len() >= 2,
    ensures
        join(parts, sep) == parts[0] + sep + join(parts.drop_first(), sep),
    decreases parts.len(),
{
    if parts.len() == 2 {
        assert(parts.drop_last().len() == 1);
        assert(parts.drop_first().len() == 1);
        assert(join(parts.drop_first(), sep) == parts[1]);
        assert(join(parts.drop_last(), sep) == parts[0]);
        assert(parts.last() == parts[1]);
        assert(join(parts, sep) == join(parts.drop_last(), sep) + sep + parts.last());
    } else {
        lemma_join_front(parts.drop_last(), sep);
        assert(parts.drop_last().drop_first() =~= parts.drop_first().drop_last());
        assert(parts.drop_first().last() == parts.last());
        assert(join(parts, sep) =~= parts[0] + sep + join(parts.drop_first(), sep));
    }
}

pub proof fn lemma_find_from_at(s: Seq<char>, sep: Seq<char>, from: int, k: int)
    requires
        0 <= from <= k,
        occurs_at(s, sep, k),
        forall|j: int| from <= j < k ==> !#[trigger] occurs_at(s, sep, j),
    ensures
        find_from(s, sep, from) == k,
    decreases k - from,
{
    if from < k {
        lemma_find_from_at(s, sep, from + 1, k);
    }
}

proof fn lemma_find_from_absent(s: Seq<char>, sep: Seq<char>, from: int)
    requires
        0 <= from,
        forall|j: int| from <= j ==> !#[trigger] occurs_at(s, sep, j),
    ensures
        find_from(s, sep, from) == -1,
    decreases s.len() + 1 - from,
{
    if from + sep.len() <= s.len() {
        assert(!occurs_at(s, sep, from));
        lemma_find_from_absent(s, sep, from + 1);
    }
}

/// `sep` occurs nowhere in `s`.
pub open spec fn free_of(s: Seq<char>, sep: Seq<char>) -> bool {
    forall|j: int| !#[trigger] occurs_at(s, sep, j)
}

/// No part holds `sep`.
pub open spec fn parts_free_of(parts: Seq<Seq<char>>, sep: Seq<char>) -> bool {
    forall|i: int| 0 <= i < parts.len() ==> free_of(#[trigger] parts[i], sep)
}

/// No shift of `sep` by `0 < l < sep.len()` agrees with `sep` on their
/// overlap, so two occurrences of `sep` never overlap.
pub open spec fn overlap_free(sep: Seq<char>) -> bool {
    forall|l: int| 0 < l < sep.len() ==> #[trigger] shift_disagrees(sep, l)
}

/// `sep` shifted by `l` differs from `sep` somewhere on their overlap.
pub open spec fn shift_disagrees(sep: Seq<char>, l: int) -> bool {
    exists|t: int| #![trigger sep[t]] 0 <= t < sep.len() - l && sep[l + t] != sep[t]
}

/// `trim_start(s)` is a suffix of `s`.
proof fn lemma_trim_start_suffix(s: Seq<char>)
    ensures
        trim_start(s).len() <= s.len(),
        trim_start(s) == s.subrange(s.len() - trim_start(s).len(), s.len() as int),
    decreases s.len(),
{
    if s.len() > 0 && spec_is_whitespace(s[0]) {
        lemma_trim_start_suffix(s.drop_first());
        let t = trim_start(s.drop_first());
        assert(s.drop_first().subrange(s.drop_first().len() - t.len(), s.drop_first().len() as int)
            =~= s.subrange(s.len() - t.len(), s.len() as int));
    } else {
        assert(s.subrange(0, s.len() as int) =~= s);
    }
}

/// Trimming keeps a text free of `sep`.
pub proof fn lemma_trim_free_of(s: Seq<char>, sep: Seq<char>)
    requires
        free_of(s, sep),
    ensures
        free_of(trim(s), sep),
{
    let t = trim_start(s);
    let u = trim_end(t);
    let d = s.len() - t.len();
    lemma_trim_start_suffix(s);
    lemma_trim_end_shape(t);
    assert forall|j: int| !#[trigger] occurs_at(u, sep, j) by {
        if occurs_at(u, sep, j) {
            let a = s.subrange(d + j, d + j + sep.len());
            let b = u.subrange(j, j + sep.len());
            assert(a =~= b) by {
                assert forall|k: int| 0 <= k < sep.len() implies #[trigger] a[k] == b[k] by {
                    assert(u[j + k] == t[j + k]);
                    assert(t[j + k] == s[d + j + k]);
                }
            }
            assert(occurs_at(s, sep, d + j));
        }
    }
}

proof fn lemma_split_joined(s: Seq<char>, sep: Seq<char>, off: int, parts: Seq<Seq<char>>)
    requires
        sep.len() > 0,
        overlap_free(sep),
        parts.len() >= 1,
        0 <= off <= s.len(),
        s.subrange(off, s.len() as int) == join(parts, sep),
        parts_free_of(parts, sep),
    ensures
        split_from(s, sep, off) == parts,
    decreases parts.len(),
{
    let p = parts[0];
    assert(free_of(p, sep));
    if parts.len() == 1 {
        assert(join(parts, sep) == p);
        assert forall|j: int| off <= j implies !#[trigger] occurs_at(s, sep, j) by {
            if occurs_at(s, sep, j) {
                let a = p.subrange(j - off, j - off + sep.len());
                let b = s.subrange(j, j + sep.len());
                assert(a =~= b) by {
                    assert forall|k: int| 0 <= k < sep.len() implies #[trigger] a[k] == b[k] by {
                        assert(s.subrange(off, s.len() as int)[j - off + k] == s[j + k]);
                    }
                }
                assert(occurs_at(p, sep, j - off));
            }
        }
        lemma_find_from_absent(s, sep, off);
        assert(split_from(s, sep, off) =~= seq![p]);
        assert(parts =~= seq![p]);
    } else {
        lemma_join_front(parts, sep);
        let rest = parts.drop_first();
        let q = off + p.len();
        let whole = s.subrange(off, s.len() as int);
        assert(whole == p + sep + join(rest, sep));
        assert(s.subrange(q, q + sep.len()) =~= sep) by {
            assert forall|t: int| 0 <= t < sep.len() implies s.subrange(q, q + sep.len())[t] == sep[t] by {
                assert(whole[p.len() + t] == sep[t]);
                assert(s[q + t] == whole[p.len() + t]);
            }
        }
        assert forall|j: int| off <= j < q implies !#[trigger] occurs_at(s, sep, j) by {
            if occurs_at(s, sep, j) {
                if j + sep.len() <= q {
                    let a = p.subrange(j - off, j - off + sep.len());
                    let b = s.subrange(j, j + sep.len());
                    assert(a =~= b) by {
                        assert forall|k: int| 0 <= k < sep.len() implies #[trigger] a[k] == b[k] by {
                            assert(whole[j - off + k] == s[j + k]);
                            assert(whole[j - off + k] == p[j - off + k]);
                        }
                    }
                    assert(occurs_at(p, sep, j - off));
                } else {
                    let l = q - j;
                    assert forall|t: int| 0 <= t < sep.len() - l implies sep[l + t] == #[trigger] sep[t] by {
                        assert(s.subrange(j, j + sep.len())[l + t] == s[j + l + t]);
                        assert(s.subrange(q, q + sep.len())[t] == s[q + t]);
                    }
                    assert(shift_disagrees(sep, l));
                    let t = choose|t: int| #![trigger sep[t]] 0 <= t < sep.len() - l && sep[l + t] != sep[t];
                    assert(sep[l + t] == sep[t]);
                }
            }
        }
        lemma_find_from_at(s, sep, off, q);
        let off2 = q + sep.len();
        assert(s.subrange(off2, s.len() as int) =~= join(rest, sep)) by {
            assert forall|t: int| 0 <= t < s.len() - off2 implies s.subrange(off2, s.len() as int)[t] == join(rest, sep)[t] by {
                assert(whole[p.len() + sep.len() + t] == s[off2 + t]);
            }
        }
        assert(s.subrange(off, q) =~= p) by {
            assert forall|t: int| 0 <= t < p.len() implies s.subrange(off, q)[t] == p[t] by {
                assert(whole[t] == s[off + t]);
            }
        }
        assert forall|i: int| 0 <= i < rest.len() implies free_of(#[trigger] rest[i], sep) by {
            assert(rest[i] == parts[i + 1]);
        }
        lemma_split_joined(s, sep, off2, rest);
        assert(parts =~= seq![p] + rest);
    }
}

/// Splitting a join of parts that do not hold the separator gives the parts
/// back, for a separator whose occurrences cannot overlap.
pub proof fn lemma_split_join(parts: Seq<Seq<char>>, sep: Seq<char>)
    requires
        sep.len() > 0,
        overlap_free(sep),
        parts.len() >= 1,
        parts_free_of(parts, sep),
    ensures
        split(join(parts, sep), sep) == parts,
{
    let s = join(parts, sep);
    assert(s.subrange(0, s.len() as int) =~= s);
    lemma_split_joined(s, sep, 0, parts);
}

/// Splits `text` at every occurrence of a non-empty `sep`, as `text.split(sep)` does.
pub fn split_pieces(text: &str, sep: &str) -> (res: Vec<String>)
    requires
        sep@.len() > 0,
    ensures
        views_of(res@) == split(text@, sep@),
{
    let v = chars_of(text);
    let sv = chars_of(sep);
    let mut out: Vec<String> = Vec::new();
    let mut start: usize = 0;
    let mut pos: usize = 0;
    while pos <= v.len() && sv.len() <= v.len() - pos
        invariant
            v@ == text@,
            sv@ == sep@,
            sv@.len() > 0,
            start <= pos <= v.len(),
            find_from(v@, sv@, start as int) == find_from(v@, sv@, pos as int),
            views_of(out@) + split_from(v@, sv@, start as int) == split(text@, sep@),
        decreases v.len() + 1 - pos,
    {
        if occurs_at_exec(&v, &sv, pos) {
            let piece = string_from_range(&v, start, pos);
            let ghost old_out = views_of(out@);
            out.push(piece);
            proof {
                let tail = split_from(v@, sv@, (pos + sv@.len()) as int);
                assert(split_from(v@, sv@, start as int) == seq![v@.subrange(start as int, pos as int)] + tail);
                assert(views_of(out@) =~= old_out.push(v@.subrange(start as int, pos as int)));
                assert(views_of(out@) + tail =~= old_out + split_from(v@, sv@, start as int));
            }
            start = pos + sv.len();
            pos = start;
        } else {
            pos = pos + 1;
        }
    }
    let piece = string_from_range(&v, start, v.len());
    let ghost old_out = views_of(out@);
    out.push(piece);
    proof {
        assert(split_from(v@, sv@, start as int) == seq![v@.subrange(start as int, v@.len() as int)]);
        assert(views_of(out@) =~= old_out.push(v@.subrange(start as int, v@.len() as int)));
    }
    out
}

/// `s` with every non-overlapping occurrence of a non-empty `from`, scanning
/// from the left, replaced by `to`: what `str::replace` computes.
pub open spec fn replace(s: Seq<char>, from: Seq<char>, to: Seq<char>) -> Seq<char> {
    join(split(s, from), to)
}

/// Replaces every occurrence of a non-empty `from` in `s` by `to`.
pub fn replace_all(s: &str, from: &str, to: &str) -> (res: String)
    requires
        from@.len() > 0,
    ensures
        res@ == replace(s@, from@, to@),
{
    let pieces = split_pieces(s, from);
    join_strings(&pieces, to)
}

/// `pat` occurs somewhere in `s`.
pub open spec fn contains(s: Seq<char>, pat: Seq<char>) -> bool {
    find_from(s, pat, 0) >= 0
}

/// Whether `pat` occurs in `s`, as `str::contains` tells.
pub fn contains_str(s: &str, pat: &str) -> (res: bool)
    ensures
        res == contains(s@, pat@),
{
    let v = chars_of(s);
    let pv = chars_of(pat);
    let mut pos: usize = 0;
    while pos < v.len()
        invariant
            v@ == s@,
            pv@ == pat@,
            pos <= v.len(),
            find_from(v@, pv@, 0) == find_from(v@, pv@, pos as int),
        decreases v.len() - pos,
    {
        if occurs_at_exec(&v, &pv, pos) {
            return true;
        }
        if pv.len() > v.len() - pos {
            return false;
        }
        pos = pos + 1;
    }
    let found = occurs_at_exec(&v, &pv, pos);
    proof {
        if pv@.len() == 0 {
            assert(v@.subrange(pos as int, pos as int) =~= pv@);
        }
    }
    found
}

/// `c` is an ASCII decimal digit.
pub open spec fn is_digit(c: char) -> bool {
    '0' <= c && c <= '9'
}

/// The value of a run of ASCII decimal digits.
pub open spec fn digits_value(s: Seq<char>) -> int
    decreases s.len(),
{
    if s.len() == 0 {
        0
    } else {
        digits_value(s.drop_last()) * 10 + (s.last() as int - '0' as int)
    }
}

/// Every character of `b` is an ASCII digit.
pub open spec fn all_digits(b: Seq<char>) -> bool {
    forall|i: int| 0 <= i < b.len() ==> #[trigger] is_digit(b[i])
}

/// `s` starts with a sign character.
pub open spec fn has_sign(s: Seq<char>) -> bool {
    s.len() > 0 && (s[0] == '-' || s[0] == '+')
}

/// `s` without its sign character, if it has one.
pub open spec fn unsigned_part(s: Seq<char>) -> Seq<char> {
    if has_sign(s) {
        s.drop_first()
    } else {
        s
    }
}

/// The integer a text denotes in the syntax of `i64::from_str`: an optional
/// `+` or `-`, then one or more ASCII digits and nothing else; `None` where
/// the text is not of that form or the value does not fit in an `i64`.
pub open spec fn parse_i64(s: Seq<char>) -> Option<int> {
    let body = unsigned_part(s);
    let value = if has_sign(s) && s[0] == '-' { -digits_value(body) } else { digits_value(body) };
    if body.len() == 0 || !all_digits(body) {
        None
    } else if i64::MIN <= value && value <= i64::MAX {
        Some(value)
    } else {
        None
    }
}

proof fn lemma_digits_value_nonneg(s: Seq<char>)
    requires
        forall|i: int| 0 <= i < s.len() ==> #[trigger] is_digit(s[i]),
    ensures
        digits_value(s) >= 0,
    decreases s.len(),
{
    if s.len() > 0 {
        assert forall|i: int| 0 <= i < s.drop_last().len() implies #[trigger] is_digit(s.drop_last()[i]) by {
            assert(s.drop_last()[i] == s[i]);
        }
        lemma_digits_value_nonneg(s.drop_last());
        assert(is_digit(s[s.len() - 1]));
    }
}

/// Parses `s` as `i64::from_str` does.
pub fn parse_integer(s: &str) -> (res: Option<i64>)
    ensures
        match res {
            Some(v) => parse_i64(s@) == Some(v as int),
            None => parse_i64(s@) is None,
        },
{
    let v = chars_of(s);
    let n = v.len();
    let mut start: usize = 0;
    let mut negative = false;
    if n > 0 && (v[0] == '-' || v[0] == '+') {
        negative = v[0] == '-';
        start = 1;
    }
    let ghost body = unsigned_part(v@);
    assert(body =~= v@.subrange(start as int, n as int));
    if start == n {
        return None;
    }
    let limit: u64 = 0x8000_0000_0000_0000;
    let mut acc: u64 = 0;
    let mut too_big = false;
    let mut i: usize = start;
    while i < n
        invariant
            v@ == s@,
            n == v@.len(),
            start <= i <= n,
            body == v@.subrange(start as int, n as int),
            body == unsigned_part(v@),
            negative == (v@.len() > 0 && v@[0] == '-'),
            limit == 0x8000_0000_0000_0000u64,
            forall|k: int| 0 <= k < i - start ==> #[trigger] is_digit(body[k]),
            too_big ==> digits_value(body.take(i - start)) > limit,
            !too_big ==> acc == digits_value(body.take(i - start)) && acc <= limit,
        decreases n - i,
    {
        let c = v[i];
        if !('0' <= c && c <= '9') {
            assert(!is_digit(body[i - start]));
            assert(!all_digits(body));
            return None;
        }
        let d = (c as u32 - '0' as u32) as u64;
        let ghost prefix = body.take(i - start);
        let ghost next = body.take(i - start + 1);
        assert(next.drop_last() =~= prefix);
        assert(next.last() == c);
        proof {
            assert(forall|k: int| 0 <= k < i - start ==> #[trigger] is_digit(prefix[k]));
            lemma_digits_value_nonneg(prefix);
        }
        if !too_big {
            if acc > (limit - d) / 10 {
                too_big = true;
            } else {
                acc = acc * 10 + d;
            }
        }
        i = i + 1;
    }
    assert(body.take(n - start) =~= body);
    if too_big {
        return None;
    }
    if negative {
        if acc == limit {
            Some(i64::MIN)
        } else {
            Some(-(acc as i64))
        }
    } else if acc == limit {
        None
    } else {
        Some(acc as i64)
    }
}

/// Joins the strings with `sep` between consecutive ones.
pub fn join_strings(parts: &Vec<String>, sep: &str) -> (res: String)
    ensures
        res@ == join(views_of(parts@), sep@),
{
    let ghost all = views_of(parts@);
    let mut out = String::new();
    let mut k: usize = 0;
    while k < parts.len()
        invariant
            k <= parts.len(),
            all == views_of(parts@),
            out@ == join(all.subrange(0, k as int), sep@),
        decreases parts.len() - k,
    {
        let ghost before = all.subrange(0, k as int);
        let ghost after = all.subrange(0, k + 1);
        assert(after.drop_last() =~= before);
        if k > 0 {
            push_str(&mut out, sep);
        }
        push_str(&mut out, parts[k].as_str());
        k = k + 1;
        proof {
            if k == 1 {
                assert(out@ =~= after[0]);
            } else {
                assert(out@ =~= join(before, sep@) + sep@ + after.last());
            }
        }
    }
    assert(all.subrange(0, parts@.len() as int) =~= all);
    out
}

/// The HTML escape of one character: `&`, `<`, `>`, `"` and `'` become
/// entities, every other character stays.
pub open spec fn escape_char(c: char) -> Seq<char> {
    if c == '&' {
        seq!['&', 'a', 'm', 'p', ';']
    } else if c == '<' {
        seq!['&', 'l', 't', ';']
    } else if c == '>' {
        seq!['&', 'g', 't', ';']
    } else if c == '"' {
        seq!['&', 'q', 'u', 'o', 't', ';']
    } else if c == '\'' {
        seq!['&', '#', '3', '9', ';']
    } else {
        seq![c]
    }
}

/// The HTML escape of a text, character by character.
pub open spec fn escape(s: Seq<char>) -> Seq<char>
    decreases s.len(),
{
    if s.len() == 0 {
        Seq::empty()
    } else {
        escape(s.drop_last()) + escape_char(s.last())
    }
}

/// Escapes `&`, `<`, `>`, `"` and `'` for HTML text and attribute values.
pub fn escape_html(input: &str) -> (res: String)
    ensures
        res@ == escape(input@),
{
    proof {
        reveal_strlit("&amp;");
        reveal_strlit("&lt;");
        reveal_strlit("&gt;");
        reveal_strlit("&quot;");
        reveal_strlit("&#39;");
        assert("&amp;"@ =~= seq!['&', 'a', 'm', 'p', ';']);
        assert("&lt;"@ =~= seq!['&', 'l', 't', ';']);
        assert("&gt;"@ =~= seq!['&', 'g', 't', ';']);
        assert("&quot;"@ =~= seq!['&', 'q', 'u', 'o', 't', ';']);
        assert("&#39;"@ =~= seq!['&', '#', '3', '9', ';']);
    }
    let v = chars_of(input);
    let mut out = String::new();
    let mut i: usize = 0;
    while i < v.len()
        invariant
            i <= v.len(),
            v@ == input@,
            out@ == escape(v@.subrange(0, i as int)),
            "&amp;"@ == seq!['&', 'a', 'm', 'p', ';'],
            "&lt;"@ == seq!['&', 'l', 't', ';'],
            "&gt;"@ == seq!['&', 'g', 't', ';'],
            "&quot;"@ == seq!['&', 'q', 'u', 'o', 't', ';'],
            "&#39;"@ == seq!['&', '#', '3', '9', ';'],
        decreases v.len() - i,
    {
        let c = v[i];
        if c == '&' {
            push_str(&mut out, "&amp;");
        } else if c == '<' {
            push_str(&mut out, "&lt;");
        } else if c == '>' {
            push_str(&mut out, "&gt;");
        } else if c == '"' {
            push_str(&mut out, "&quot;");
        } else if c == '\'' {
            push_str(&mut out, "&#39;");
        } else {
            push_char(&mut out, c);
        }
        proof {
            assert(v@.subrange(0, i + 1).drop_last() =~= v@.subrange(0, i as int));
            assert(out@ =~= escape(v@.subrange(0, i + 1)));
        }
        i = i + 1;
    }
    assert(v@.subrange(0, v@.len() as int) =~= v@);
    out
}


/// The escape can be computed from the front as well.
pub proof fn lemma_escape_front(s: Seq<char>)
    requires
        s.len() > 0,
    ensures
        escape(s) == escape_char(s[0]) + escape(s.drop_first()),
    decreases s.len(),
{
    if s.len() == 1 {
        assert(s.drop_last() =~= Seq::<char>::empty());
        assert(s.drop_first() =~= Seq::<char>::empty());
        assert(escape(s.drop_last()) =~= Seq::<char>::empty());
        assert(escape(s.drop_first()) =~= Seq::<char>::empty());
        assert(s.last() == s[0]);
        assert(escape(s) =~= escape_char(s[0]));
    } else {
        lemma_escape_front(s.drop_last());
        assert(s.drop_last().drop_first() =~= s.drop_first().drop_last());
        assert(s.drop_last()[0] == s[0]);
        assert(s.drop_first().last() == s.last());
    }
}

/// Escaping never shortens a text.
pub proof fn lemma_escape_len(s: Seq<char>)
    ensures
        escape(s).len() >= s.len(),
    decreases s.len(),
{
    if s.len() > 0 {
        lemma_escape_len(s.drop_last());
    }
}

/// Escaped text holds no `<`, `>`, `"` or `'`, so it cannot open a tag or
/// close an attribute value.
pub proof fn lemma_escape_is_inert(s: Seq<char>)
    ensures
        forall|i: int|
            0 <= i < escape(s).len() ==> #[trigger] escape(s)[i] != '<' && escape(s)[i] != '>'
                && escape(s)[i] != '"' && escape(s)[i] != '\'',
    decreases s.len(),
{
    if s.len() > 0 {
        lemma_escape_is_inert(s.drop_last());
        let prev = escape(s.drop_last());
        let tail = escape_char(s.last());
        assert forall|i: int| 0 <= i < escape(s).len() implies #[trigger] escape(s)[i] != '<' && escape(s)[i]
            != '>' && escape(s)[i] != '"' && escape(s)[i] != '\'' by {
            if i < prev.len() {
                assert(escape(s)[i] == prev[i]);
            } else {
                assert(escape(s)[i] == tail[i - prev.len()]);
            }
        }
    }
}

/// Different texts have different escapes: escaping loses nothing.
pub proof fn lemma_escape_injective(a: Seq<char>, b: Seq<char>)
    requires
        escape(a) == escape(b),
    ensures
        a == b,
    decreases a.len() + b.len(),
{
    lemma_escape_len(a);
    lemma_escape_len(b);
    if a.len() == 0 || b.len() == 0 {
        if a.len() > 0 {
            lemma_escape_front(a);
        }
        if b.len() > 0 {
            lemma_escape_front(b);
        }
        assert(a =~= b);
    } else {
        lemma_escape_front(a);
        lemma_escape_front(b);
        let ea = escape_char(a[0]);
        let eb = escape_char(b[0]);
        let e = escape(a);
        assert(e[0] == ea[0]);
        assert(e[0] == eb[0]);
        if ea.len() > 1 {
            assert(e[1] == ea[1]);
        }
        if eb.len() > 1 {
            assert(e[1] == eb[1]);
        }
        assert(a[0] == b[0]);
        assert(ea == eb);
        assert(escape(a.drop_first()) =~= e.subrange(ea.len() as int, e.len() as int));
        assert(escape(b.drop_first()) =~= e.subrange(eb.len() as int, e.len() as int));
        lemma_escape_injective(a.drop_first(), b.drop_first());
        assert(a =~= seq![a[0]] + a.drop_first());
        assert(b =~= seq![b[0]] + b.drop_first());
    }
}

} // verus!
