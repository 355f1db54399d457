//! File-name sanitizing through the `sanitize-filename` crate.

use vstd::prelude::*;

use crate::text::{ascii_lower, utf8_len};

verus! {

/// Characters `sanitize_filename::sanitize` removes on every platform:
/// path separators and the other reserved characters `?<>:*|"`, and the
/// control characters U+0000–U+001F and U+0080–U+009F.
pub open spec fn is_unsafe_file_name_char(c: char) -> bool {
    let u = c as u32;
    ||| c == '/'
    ||| c == '?'
    ||| c == '<'
    ||| c == '>'
    ||| c == '\\'
    ||| c == ':'
    ||| c == '*'
    ||| c == '|'
    ||| c == '"'
    ||| u <= 0x1f
    ||| (0x80 <= u && u <= 0x9f)
}

/// Whether a name starts with the letters of a Windows device name (`con`,
/// `prn`, `aux`, `nul`, `com`, `lpt`), in any case.
pub open spec fn starts_like_device_name(name: Seq<char>) -> bool {
    name.len() >= 3 && {
        let head = ascii_lower(name.take(3));
        ||| head == "con"@
        ||| head == "prn"@
        ||| head == "aux"@
        ||| head == "nul"@
        ||| head == "com"@
        ||| head == "lpt"@
    }
}

/// A name that `sanitize_filename::sanitize` hands back unchanged on every
/// platform: none of the characters it removes, at most 255 bytes, no dot
/// or space at its end, and not starting like a Windows device name.
pub open spec fn is_kept_file_name(name: Seq<char>) -> bool {
    &&& forall|i: int| 0 <= i < name.len() ==> !is_unsafe_file_name_char(#[trigger] name[i])
    &&& utf8_len(name) <= 255
    &&& name.len() > 0 ==> name.last() != '.' && name.last() != ' '
    &&& !starts_like_device_name(name)
}

/// Calls `sanitize_filename::sanitize` with its default options. Every
/// step of that function only deletes characters (reserved and control
/// characters, names made only of dots, and on Windows reserved device names
/// and trailing dots or spaces) or truncates to 255 bytes, so the result holds
/// none of the characters above, and a name that no step touches comes back
/// as it was. A name made only of dots is removed whole, and truncation keeps
/// at least 252 bytes, so the result is never `.` or `..`. What survives of other names depends on the platform
/// (`cfg!(windows)`), so the result is not stated for them.
#[verifier::external_body]
pub(crate) fn sanitize_file_name(name: &str) -> (res: String)
    ensures
        forall|i: int| 0 <= i < res@.len() ==> !is_unsafe_file_name_char(#[trigger] res@[i]),
        is_kept_file_name(name@) ==> res@ == name@,
        res@ != seq!['.'] && res@ != seq!['.', '.'],
{
    sanitize_filename::sanitize(name)
}

/// `clean` is what sanitizing can make of `raw`: none of the characters
/// that sanitizing removes, not `.` or `..`, and `raw` itself when
/// sanitizing leaves `raw` as it is.
pub open spec fn is_clean_name_of(raw: Seq<char>, clean: Seq<char>) -> bool {
    &&& forall|i: int| 0 <= i < clean.len() ==> !is_unsafe_file_name_char(#[trigger] clean[i])
    &&& clean != seq!['.'] && clean != seq!['.', '.']
    &&& is_kept_file_name(raw) ==> clean == raw
}

} // verus!
