//! Glossary entries shared by the translating tools.

use vstd::prelude::*;

verus! {

/// One glossary entry: an English term and its Chinese rendering.
#[derive(Debug, Clone)]
pub struct GlossaryTerm {
    pub source_term: String,
    pub target_term: String,
}

/// The glossary as pairs of texts.
pub open spec fn term_views(terms: Seq<GlossaryTerm>) -> Seq<(Seq<char>, Seq<char>)> {
    terms.map_values(|t: GlossaryTerm| (t.source_term@, t.target_term@))
}

/// How a write to the glossary table came back.
#[derive(Debug, Clone, Copy, PartialEq, Eq, Structural)]
pub enum GlossaryWrite {
    /// The statement ran and changed this many rows.
    Rows(u64),
    /// The database refused a second term with the same source text.
    Duplicate,
    /// Any other database failure.
    Failed,
}

/// The redirect parameter and code that answer a glossary write: the
/// success code `ok` under `status` when a row changed,
/// `glossary_not_found` when none did, `glossary_duplicate` for a repeated
/// source term and `unknown` for any other failure, each under `error`.
pub fn glossary_write_outcome<'a>(write: GlossaryWrite, ok: &'a str) -> (res: (&'static str, &'a str))
    ensures
        match write {
            GlossaryWrite::Rows(n) => if n > 0 {
                res.0@ == "status"@ && res.1@ == ok@
            } else {
                res.0@ == "error"@ && res.1@ == "glossary_not_found"@
            },
            GlossaryWrite::Duplicate => res.0@ == "error"@ && res.1@ == "glossary_duplicate"@,
            GlossaryWrite::Failed => res.0@ == "error"@ && res.1@ == "unknown"@,
        },
{
    match write {
        GlossaryWrite::Rows(n) => if n > 0 {
            ("status", ok)
        } else {
            ("error", "glossary_not_found")
        },
        GlossaryWrite::Duplicate => ("error", "glossary_duplicate"),
        GlossaryWrite::Failed => ("error", "unknown"),
    }
}

} // verus!
