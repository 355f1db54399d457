//! Recognizing the texts of UUIDs, through the `uuid` crate.

use vstd::prelude::*;

use crate::text::ascii_lower;

verus! {

/// An ASCII hexadecimal digit, in either case.
pub open spec fn is_hex_digit(c: char) -> bool {
    ('0' <= c && c <= '9') || ('a' <= c && c <= 'f') || ('A' <= c && c <= 'F')
}

/// 32 hexadecimal digits.
pub open spec fn is_simple_uuid(s: Seq<char>) -> bool {
    s.len() == 32 && forall|i: int| 0 <= i < 32 ==> #[trigger] is_hex_digit(s[i])
}

/// 36 characters: hexadecimal digits with hyphens at 8, 13, 18 and 23.
pub open spec fn is_hyphenated_uuid(s: Seq<char>) -> bool {
    &&& s.len() == 36
    &&& s[8] == '-' && s[13] == '-' && s[18] == '-' && s[23] == '-'
    &&& forall|i: int|
        0 <= i < 36 && i != 8 && i != 13 && i != 18 && i != 23 ==> #[trigger] is_hex_digit(s[i])
}

/// The texts `uuid::Uuid::parse_str` accepts: the simple and hyphenated
/// forms, the hyphenated form in braces, and the hyphenated form after
/// `urn:uuid:` in any ASCII case.
pub open spec fn is_uuid_text(s: Seq<char>) -> bool {
    ||| is_simple_uuid(s)
    ||| is_hyphenated_uuid(s)
    ||| (s.len() == 38 && s[0] == '{' && s[37] == '}' && is_hyphenated_uuid(s.subrange(1, 37)))
    ||| (s.len() == 45 && ascii_lower(s.take(9)) == "urn:uuid:"@ && is_hyphenated_uuid(s.skip(9)))
}

/// Calls `uuid::Uuid::parse_str` and tells whether it accepted the text.
/// Its parser takes byte lengths 32, 36, 38 (braced) and 45 (`urn:uuid:`
/// prefix compared without ASCII case) and decodes only ASCII hexadecimal
/// digits, so every accepted text is ASCII and the character-level
/// statement above is the byte-level one.
#[verifier::external_body]
pub(crate) fn parses_as_uuid(text: &str) -> (res: bool)
    ensures
        res == is_uuid_text(text@),
{
    uuid::Uuid::parse_str(text).is_ok()
}

} // verus!
