//! The summarizer: document kinds, the translation prompt with its glossary,
//! the requests sent per document, the retry schedule, what one document
//! yields, and how a job's documents add up.

use vstd::prelude::*;

use crate::glossary::{term_views, GlossaryTerm};
use crate::llm::{ChatMessage, LlmRequest, MessageRole};
use crate::paths::{file_stem_or, is_plain_file_name, spec_file_stem};
use crate::sanitize::{is_kept_file_name, is_unsafe_file_name_char, sanitize_file_name};
use crate::status::JobStatus;
use crate::text::{
    ascii_lower, contains, contains_str, decimal, join, join_strings, push_decimal, push_str, replace,
    replace_all, str_eq, to_ascii_lowercase, to_owned_string, trim, trim_end, trim_end_str, trim_str,
    views_of, find_from, occurs_at, split, split_from,
};

verus! {

/// Marker in the translation prompt where the glossary goes.
pub const GLOSSARY_PLACEHOLDER: &'static str = "{{GLOSSARY}}";

/// Attempts per request, the first included.
pub const MAX_RETRIES: u32 = 3;

/// Wait before the second attempt, in milliseconds; it doubles after each
/// further failure.
pub const INITIAL_RETRY_DELAY_MS: u64 = 1000;

/// Documents summarized at the same time.
pub const MAX_CONCURRENT_DOCUMENTS: usize = 5;

/// What kind of document is summarized, which selects the summary prompt.
#[derive(Debug, Clone, Copy, PartialEq, Eq, Structural)]
pub enum DocumentKind {
    ResearchArticle,
    OtherDocument,
}

impl DocumentKind {
    pub open spec fn spec_str(self) -> Seq<char> {
        match self {
            DocumentKind::ResearchArticle => "research"@,
            DocumentKind::OtherDocument => "other"@,
        }
    }

    /// The kind a form or stored value names: `other` in any letter case,
    /// anything else is a research article.
    pub fn from_str(value: &str) -> (res: Self)
        ensures
            res == (if ascii_lower(value@) == "other"@ {
                DocumentKind::OtherDocument
            } else {
                DocumentKind::ResearchArticle
            }),
    {
        let lower = to_ascii_lowercase(value);
        if str_eq(lower.as_str(), "other") {
            DocumentKind::OtherDocument
        } else {
            DocumentKind::ResearchArticle
        }
    }

    /// The value stored for the kind.
    pub fn as_str(&self) -> (res: &'static str)
        ensures
            res@ == self.spec_str(),
    {
        match self {
            DocumentKind::ResearchArticle => "research",
            DocumentKind::OtherDocument => "other",
        }
    }
}

/// The stored value of a kind reads back as the same kind.
pub proof fn lemma_document_kind_round_trip(kind: DocumentKind)
    ensures
        (if ascii_lower(kind.spec_str()) == "other"@ {
            DocumentKind::OtherDocument
        } else {
            DocumentKind::ResearchArticle
        }) == kind,
{
    reveal_strlit("other");
    reveal_strlit("research");
    assert(ascii_lower("other"@) =~= "other"@);
    if kind == DocumentKind::ResearchArticle {
        assert(ascii_lower("research"@)[0] == 'r');
    }
}

/// Whether the form's `translate` value asks for a translation.
pub open spec fn translate_requested(value: Seq<char>) -> bool {
    let t = trim(value);
    t == "on"@ || t == "true"@ || t == "1"@ || t == "yes"@
}

/// Reads the form's `translate` value.
pub fn parse_translate_flag(value: &str) -> (res: bool)
    ensures
        res == translate_requested(value@),
{
    let t = trim_str(value);
    let s = t.as_str();
    str_eq(s, "on") || str_eq(s, "true") || str_eq(s, "1") || str_eq(s, "yes")
}

/// The glossary line of a term, with both terms trimmed.
pub open spec fn summary_glossary_line(term: (Seq<char>, Seq<char>)) -> Seq<char> {
    "- EN: "@ + trim(term.0) + " -> CN: "@ + trim(term.1)
}

/// What goes in place of the glossary placeholder.
pub open spec fn summary_glossary(terms: Seq<(Seq<char>, Seq<char>)>) -> Seq<char> {
    if terms.len() == 0 {
        "- (no glossary terms configured)"@
    } else {
        join(terms.map_values(|t: (Seq<char>, Seq<char>)| summary_glossary_line(t)), "\n"@)
    }
}

/// The translation prompt: the glossary replaces the placeholder where the
/// template has one, else it follows the template on a line of its own.
pub open spec fn summary_translation_prompt(template: Seq<char>, terms: Seq<(Seq<char>, Seq<char>)>) -> Seq<char> {
    if contains(template, GLOSSARY_PLACEHOLDER@) {
        replace(template, GLOSSARY_PLACEHOLDER@, summary_glossary(terms))
    } else {
        trim_end(template) + "\n"@ + summary_glossary(terms)
    }
}

/// `part` occurs in `s` at some position.
pub open spec fn occurs_in(s: Seq<char>, part: Seq<char>) -> bool {
    exists|p: int| 0 <= p && p + part.len() <= s.len() && #[trigger] s.subrange(p, p + part.len()) == part
}

/// An occurrence inside `a` or `b` is an occurrence inside `a + b`, and
/// `a` occurs in `a + m + b` with `m` in the middle too.
proof fn lemma_occurs_in_concat(a: Seq<char>, b: Seq<char>, part: Seq<char>)
    ensures
        occurs_in(a, part) ==> occurs_in(a + b, part),
        occurs_in(b, part) ==> occurs_in(a + b, part),
        occurs_in(a + b, a),
        occurs_in(a + b, b),
{
    if occurs_in(a, part) {
        let p = choose|p: int| 0 <= p && p + part.len() <= a.len() && #[trigger] a.subrange(p, p + part.len()) == part;
        assert((a + b).subrange(p, p + part.len()) =~= a.subrange(p, p + part.len()));
    }
    if occurs_in(b, part) {
        let p = choose|p: int| 0 <= p && p + part.len() <= b.len() && #[trigger] b.subrange(p, p + part.len()) == part;
        assert((a + b).subrange(a.len() + p, a.len() + p + part.len()) =~= b.subrange(p, p + part.len()));
    }
    let z: int = 0;
    assert((a + b).subrange(z, z + a.len()) =~= a);
    let la: int = a.len() as int;
    assert((a + b).subrange(la, la + b.len()) =~= b);
}

/// Every part occurs in the parts joined with a separator.
proof fn lemma_join_holds_parts(parts: Seq<Seq<char>>, sep: Seq<char>, k: int)
    requires
        0 <= k < parts.len(),
    ensures
        occurs_in(join(parts, sep), parts[k]),
    decreases parts.len(),
{
    if parts.len() == 1 {
        let z: int = 0;
        assert(join(parts, sep) == parts[0]);
        assert(join(parts, sep).subrange(z, z + parts[0].len()) =~= parts[0]);
    } else {
        let front = join(parts.drop_last(), sep);
        assert(join(parts, sep) == front + sep + parts.last());
        lemma_occurs_in_concat(front + sep, parts.last(), parts[k]);
        if k < parts.len() - 1 {
            assert(parts.drop_last()[k] == parts[k]);
            lemma_join_holds_parts(parts.drop_last(), sep, k);
            lemma_occurs_in_concat(front, sep, parts[k]);
        }
    }
}

/// For a non-empty glossary, the text that takes the placeholder's place
/// holds the line `- EN: source -> CN: target` of every term, both trimmed.
pub proof fn lemma_glossary_lists_every_term(terms: Seq<(Seq<char>, Seq<char>)>, k: int)
    requires
        0 <= k < terms.len(),
    ensures
        occurs_in(summary_glossary(terms), "- EN: "@ + trim(terms[k].0) + " -> CN: "@ + trim(terms[k].1)),
{
    let lines = terms.map_values(|t: (Seq<char>, Seq<char>)| summary_glossary_line(t));
    assert(lines[k] == "- EN: "@ + trim(terms[k].0) + " -> CN: "@ + trim(terms[k].1));
    lemma_join_holds_parts(lines, "\n"@, k);
}

/// `find_from` reports only occurrences that fit in the text.
proof fn lemma_find_from_fits(s: Seq<char>, sep: Seq<char>, from: int)
    ensures
        find_from(s, sep, from) >= 0 ==> find_from(s, sep, from) >= from && find_from(s, sep, from) + sep.len()
            <= s.len(),
    decreases s.len() + 1 - from,
{
    if !(from < 0 || from + sep.len() > s.len()) && !occurs_at(s, sep, from) {
        lemma_find_from_fits(s, sep, from + 1);
    }
}

/// A text that holds a non-empty separator splits into at least two pieces.
proof fn lemma_split_two_pieces(s: Seq<char>, sep: Seq<char>)
    requires
        sep.len() > 0,
        find_from(s, sep, 0) >= 0,
    ensures
        split(s, sep).len() >= 2,
{
    lemma_find_from_fits(s, sep, 0);
    let k = find_from(s, sep, 0);
    lemma_split_from_nonempty(s, sep, k + sep.len());
}

proof fn lemma_split_from_nonempty(s: Seq<char>, sep: Seq<char>, from: int)
    ensures
        split_from(s, sep, from).len() >= 1,
    decreases s.len() - from,
{
    let k = find_from(s, sep, from);
    if !(k < from || sep.len() == 0 || from < 0 || from > s.len() || k + sep.len() > s.len()) {
        lemma_split_from_nonempty(s, sep, k + sep.len());
    }
}

/// The translation prompt holds the glossary line of every term, whether
/// the glossary replaces the placeholder or follows the template.
pub proof fn lemma_prompt_lists_every_term(template: Seq<char>, terms: Seq<(Seq<char>, Seq<char>)>, k: int)
    requires
        0 <= k < terms.len(),
    ensures
        occurs_in(
            summary_translation_prompt(template, terms),
            "- EN: "@ + trim(terms[k].0) + " -> CN: "@ + trim(terms[k].1),
        ),
{
    let line = "- EN: "@ + trim(terms[k].0) + " -> CN: "@ + trim(terms[k].1);
    let block = summary_glossary(terms);
    lemma_glossary_lists_every_term(terms, k);
    if contains(template, GLOSSARY_PLACEHOLDER@) {
        reveal_strlit("{{GLOSSARY}}");
        let parts = split(template, GLOSSARY_PLACEHOLDER@);
        lemma_split_two_pieces(template, GLOSSARY_PLACEHOLDER@);
        let front = join(parts.drop_last(), block);
        assert(join(parts, block) == front + block + parts.last());
        lemma_occurs_in_concat(front, block, line);
        lemma_occurs_in_concat(front + block, parts.last(), line);
    } else {
        lemma_occurs_in_concat(trim_end(template) + "\n"@, block, line);
    }
}

/// Builds the translation prompt from its template and the glossary.
pub fn build_translation_prompt(template: &str, glossary: &Vec<GlossaryTerm>) -> (res: String)
    ensures
        res@ == summary_translation_prompt(template@, term_views(glossary@)),
{
    let ghost tv = term_views(glossary@);
    let mut lines: Vec<String> = Vec::new();
    let mut k: usize = 0;
    while k < glossary.len()
        invariant
            k <= glossary.len(),
            tv == term_views(glossary@),
            lines@.len() == k,
            forall|j: int| 0 <= j < k ==> #[trigger] lines@[j]@ == summary_glossary_line(tv[j]),
        decreases glossary.len() - k,
    {
        let mut line = to_owned_string("- EN: ");
        let src = trim_str(glossary[k].source_term.as_str());
        let tgt = trim_str(glossary[k].target_term.as_str());
        push_str(&mut line, src.as_str());
        push_str(&mut line, " -> CN: ");
        push_str(&mut line, tgt.as_str());
        lines.push(line);
        k = k + 1;
    }
    assert(views_of(lines@) =~= tv.map_values(|t: (Seq<char>, Seq<char>)| summary_glossary_line(t)));
    let substitution = if glossary.len() == 0 {
        to_owned_string("- (no glossary terms configured)")
    } else {
        join_strings(&lines, "\n")
    };
    proof {
        reveal_strlit("{{GLOSSARY}}");
    }
    if contains_str(template, GLOSSARY_PLACEHOLDER) {
        replace_all(template, GLOSSARY_PLACEHOLDER, substitution.as_str())
    } else {
        let mut out = trim_end_str(template);
        push_str(&mut out, "\n");
        push_str(&mut out, substitution.as_str());
        out
    }
}

/// The summary prompt for a kind of document.
pub fn document_prompt<'a>(research_summary: &'a str, general_summary: &'a str, kind: DocumentKind) -> (res: &'a str)
    ensures
        res@ == match kind {
            DocumentKind::ResearchArticle => research_summary@,
            DocumentKind::OtherDocument => general_summary@,
        },
{
    match kind {
        DocumentKind::ResearchArticle => research_summary,
        DocumentKind::OtherDocument => general_summary,
    }
}

/// `enabled` or `disabled`.
pub fn translation_enabled_text(enabled: bool) -> (res: &'static str)
    ensures
        res@ == (if enabled {
            "enabled"@
        } else {
            "disabled"@
        }),
{
    if enabled {
        "enabled"
    } else {
        "disabled"
    }
}

/// The stem of an uploaded file's name, with `document` for a name without
/// one.
pub open spec fn output_stem(filename: Seq<char>) -> Seq<char> {
    if spec_file_stem(filename).len() == 0 {
        "document"@
    } else {
        spec_file_stem(filename)
    }
}

/// The download name of a text output: the sanitized stem of the uploaded
/// file, `_`, the suffix, and `.txt`.
pub fn sanitize_for_output(filename: &str, suffix: &str) -> (res: String)
    ensures
        exists|base: Seq<char>|
            {
                &&& res@ == base + "_"@ + suffix@ + ".txt"@
                &&& forall|i: int| 0 <= i < base.len() ==> !is_unsafe_file_name_char(#[trigger] base[i])
            },
        is_plain_file_name(filename@) && is_kept_file_name(output_stem(filename@)) ==> res@ == output_stem(filename@)
            + "_"@ + suffix@ + ".txt"@,
{
    let mut base = file_stem_or(filename, "document");
    if base.as_str().is_empty() {
        base = to_owned_string("document");
    }
    let safe = sanitize_file_name(base.as_str());
    let mut out = safe.clone();
    push_str(&mut out, "_");
    push_str(&mut out, suffix);
    push_str(&mut out, ".txt");
    assert(out@ == safe@ + "_"@ + suffix@ + ".txt"@);
    out
}

/// The request for a document's summary: the prompt, then the text.
pub fn build_summary_request(model: &str, prompt: &str, text: &str) -> (res: LlmRequest)
    ensures
        res.model@ == model@,
        res.messages@.len() == 2,
        res.messages@[0].role == MessageRole::System,
        res.messages@[0].text@ == prompt@,
        res.messages@[1].role == MessageRole::User,
        res.messages@[1].text@ == text@,
        res.attachments@.len() == 0,
{
    let mut messages: Vec<ChatMessage> = Vec::new();
    messages.push(ChatMessage::new(MessageRole::System, to_owned_string(prompt)));
    messages.push(ChatMessage::new(MessageRole::User, to_owned_string(text)));
    LlmRequest::new(to_owned_string(model), messages)
}

/// The user message asking for a summary's translation.
pub open spec fn translation_instruction(summary: Seq<char>) -> Seq<char> {
    "Translate the following text to Chinese while adhering to the glossary:\n\n"@ + summary
}

/// The request for a summary's translation.
pub fn build_translation_request(model: &str, prompt: String, summary: &str) -> (res: LlmRequest)
    ensures
        res.model@ == model@,
        res.messages@.len() == 2,
        res.messages@[0].role == MessageRole::System,
        res.messages@[0].text@ == prompt@,
        res.messages@[1].role == MessageRole::User,
        res.messages@[1].text@ == translation_instruction(summary@),
        res.attachments@.len() == 0,
{
    let mut instruction = to_owned_string("Translate the following text to Chinese while adhering to the glossary:\n\n");
    push_str(&mut instruction, summary);
    let mut messages: Vec<ChatMessage> = Vec::new();
    messages.push(ChatMessage::new(MessageRole::System, prompt));
    messages.push(ChatMessage::new(MessageRole::User, instruction));
    LlmRequest::new(to_owned_string(model), messages)
}

/// The heading of document `idx` (counted from zero) in the combined files.
pub fn format_heading(idx: usize, filename: &str) -> (res: String)
    requires
        idx < usize::MAX,
    ensures
        res@ == "Document "@ + decimal((idx + 1) as nat) + " — "@ + filename@,
{
    let mut out = to_owned_string("Document ");
    push_decimal(&mut out, (idx + 1) as u64);
    push_str(&mut out, " — ");
    push_str(&mut out, filename);
    out
}

/// The file name of a combined output (`summary` or `translation`).
pub fn combined_output_name(variant: &str) -> (res: String)
    ensures
        res@ == "combined_"@ + variant@ + ".txt"@,
{
    let mut out = to_owned_string("combined_");
    push_str(&mut out, variant);
    push_str(&mut out, ".txt");
    out
}

/// The status detail while a document is read.
pub fn reading_status(filename: &str) -> (res: String)
    ensures
        res@ == "Reading "@ + filename@,
{
    let mut out = to_owned_string("Reading ");
    push_str(&mut out, filename);
    out
}

/// The status detail while a summary is translated.
pub fn translating_status(filename: &str, glossary_enabled: bool) -> (res: String)
    ensures
        res@ == "Translating "@ + filename@ + " (glossary "@ + (if glossary_enabled {
            "enabled"@
        } else {
            "disabled"@
        }) + ")"@,
{
    let mut out = to_owned_string("Translating ");
    push_str(&mut out, filename);
    push_str(&mut out, " (glossary ");
    push_str(&mut out, translation_enabled_text(glossary_enabled));
    push_str(&mut out, ")");
    out
}

/// 2 to the power `n`.
pub open spec fn pow2(n: nat) -> nat
    decreases n,
{
    if n == 0 {
        1
    } else {
        2 * pow2((n - 1) as nat)
    }
}

/// After failed attempt number `attempt` (counted from one): the wait
/// before the next attempt, or `None` when no attempt is left.
pub open spec fn retry_wait(attempt: nat) -> Option<nat> {
    if 1 <= attempt && attempt < MAX_RETRIES {
        Some((INITIAL_RETRY_DELAY_MS * pow2((attempt - 1) as nat)) as nat)
    } else {
        None
    }
}

/// The wait after failed attempt `attempt`, in milliseconds.
pub fn retry_delay_ms(attempt: u32) -> (res: Option<u64>)
    ensures
        match res {
            Some(d) => retry_wait(attempt as nat) == Some(d as nat),
            None => retry_wait(attempt as nat) is None,
        },
{
    if attempt >= 1 && attempt < MAX_RETRIES {
        let mut delay: u64 = INITIAL_RETRY_DELAY_MS;
        let mut k: u32 = 1;
        while k < attempt
            invariant
                1 <= k <= attempt < MAX_RETRIES,
                delay == INITIAL_RETRY_DELAY_MS * pow2((k - 1) as nat),
            decreases attempt - k,
        {
            assert(pow2(k as nat) == 2 * pow2((k - 1) as nat));
            delay = delay * 2;
            k = k + 1;
        }
        Some(delay)
    } else {
        None
    }
}

/// What one document of a job yields.
#[derive(Debug, Clone)]
pub struct DocumentResult {
    pub success: bool,
    pub summary_text: Option<String>,
    pub translation_text: Option<String>,
    pub summary_tokens: i64,
    pub translation_tokens: i64,
    pub error_message: Option<String>,
    pub status_detail: Option<String>,
}

/// A document whose text could not be read (or was empty).
pub fn unreadable_document(error: String) -> (res: DocumentResult)
    ensures
        !res.success,
        res.summary_text is None,
        res.translation_text is None,
        res.summary_tokens == 0,
        res.translation_tokens == 0,
        res.error_message matches Some(e) && e@ == error@,
        res.status_detail matches Some(d) && d@ == "Unable to extract text from the document."@,
{
    DocumentResult {
        success: false,
        summary_text: None,
        translation_text: None,
        summary_tokens: 0,
        translation_tokens: 0,
        error_message: Some(error),
        status_detail: Some(to_owned_string("Unable to extract text from the document.")),
    }
}

/// A document whose summary request failed every attempt.
pub fn unsummarized_document(error: String) -> (res: DocumentResult)
    ensures
        !res.success,
        res.summary_text is None,
        res.translation_text is None,
        res.summary_tokens == 0,
        res.translation_tokens == 0,
        res.error_message matches Some(e) && e@ == error@,
        res.status_detail matches Some(d) && d@ == "Summarization failed."@,
{
    DocumentResult {
        success: false,
        summary_text: None,
        translation_text: None,
        summary_tokens: 0,
        translation_tokens: 0,
        error_message: Some(error),
        status_detail: Some(to_owned_string("Summarization failed.")),
    }
}

/// What the translation of a summary came to.
pub enum TranslationReply {
    /// No translation was asked for.
    NotRequested,
    /// The reply's text and its total tokens.
    Translated(String, usize),
    /// Every attempt failed, with the last error.
    Failed(String),
}

/// A summarized document: the summary is trimmed, the translation too; a
/// failed translation leaves the summary in place and is noted.
pub fn summarized_document(summary_reply: &str, summary_tokens: usize, translation: TranslationReply) -> (res:
    DocumentResult)
    requires
        summary_tokens <= i64::MAX,
        translation matches TranslationReply::Translated(_, t) ==> t <= i64::MAX,
    ensures
        res.success,
        res.summary_text matches Some(s) && s@ == trim(summary_reply@),
        res.summary_tokens == summary_tokens,
        match translation {
            TranslationReply::NotRequested => res.translation_text is None && res.translation_tokens == 0
                && res.error_message is None && res.status_detail is None,
            TranslationReply::Translated(text, t) => (res.translation_text matches Some(x) && x@ == trim(text@))
                && res.translation_tokens == t && res.error_message is None && res.status_detail is None,
            TranslationReply::Failed(e) => res.translation_text is None && res.translation_tokens == 0
                && (res.error_message matches Some(m) && m@ == e@) && (res.status_detail matches Some(d) && d@
                == "Translation failed; summary available."@),
        },
{
    let summary_text = trim_str(summary_reply);
    match translation {
        TranslationReply::NotRequested => DocumentResult {
            success: true,
            summary_text: Some(summary_text),
            translation_text: None,
            summary_tokens: summary_tokens as i64,
            translation_tokens: 0,
            error_message: None,
            status_detail: None,
        },
        TranslationReply::Translated(text, t) => DocumentResult {
            success: true,
            summary_text: Some(summary_text),
            translation_text: Some(trim_str(text.as_str())),
            summary_tokens: summary_tokens as i64,
            translation_tokens: t as i64,
            error_message: None,
            status_detail: None,
        },
        TranslationReply::Failed(e) => DocumentResult {
            success: true,
            summary_text: Some(summary_text),
            translation_text: None,
            summary_tokens: summary_tokens as i64,
            translation_tokens: 0,
            error_message: Some(e),
            status_detail: Some(to_owned_string("Translation failed; summary available.")),
        },
    }
}

/// Running totals of a job: documents completed and tokens spent.
#[derive(Debug, Clone, Copy, PartialEq, Eq, Structural)]
pub struct JobTally {
    pub success_count: i64,
    pub summary_tokens: i64,
    pub translation_tokens: i64,
}

impl JobTally {
    /// Nothing counted yet.
    pub fn new() -> (res: Self)
        ensures
            res == (JobTally { success_count: 0, summary_tokens: 0, translation_tokens: 0 }),
    {
        JobTally { success_count: 0, summary_tokens: 0, translation_tokens: 0 }
    }

    /// Counts a completed document.
    pub fn record(&mut self, summary_tokens: i64, translation_tokens: i64)
        requires
            old(self).success_count < i64::MAX,
            i64::MIN <= old(self).summary_tokens + summary_tokens <= i64::MAX,
            i64::MIN <= old(self).translation_tokens + translation_tokens <= i64::MAX,
        ensures
            final(self).success_count == old(self).success_count + 1,
            final(self).summary_tokens == old(self).summary_tokens + summary_tokens,
            final(self).translation_tokens == old(self).translation_tokens + translation_tokens,
    {
        self.summary_tokens = self.summary_tokens + summary_tokens;
        self.translation_tokens = self.translation_tokens + translation_tokens;
        self.success_count = self.success_count + 1;
    }

    /// The tokens charged to the user's usage.
    pub fn usage_tokens(&self) -> (res: i64)
        requires
            i64::MIN <= self.summary_tokens + self.translation_tokens <= i64::MAX,
        ensures
            res == self.summary_tokens + self.translation_tokens,
    {
        self.summary_tokens + self.translation_tokens
    }
}

/// How a job ends: completed when at least one document was summarized.
pub open spec fn summary_job_outcome(success_count: int) -> (JobStatus, Seq<char>) {
    if success_count > 0 {
        (JobStatus::Completed, "Completed with "@ + decimal(success_count as nat) + " successful documents"@)
    } else {
        (JobStatus::Failed, "Job finished but no documents were successfully processed"@)
    }
}

/// The final status and status detail of a job.
pub fn finish_job(success_count: i64) -> (res: (JobStatus, String))
    ensures
        res.0 == summary_job_outcome(success_count as int).0,
        res.1@ == summary_job_outcome(success_count as int).1,
{
    if success_count > 0 {
        let mut out = to_owned_string("Completed with ");
        push_decimal(&mut out, success_count as u64);
        push_str(&mut out, " successful documents");
        (JobStatus::Completed, out)
    } else {
        (JobStatus::Failed, to_owned_string("Job finished but no documents were successfully processed"))
    }
}

/// Why a combined download is refused.
#[derive(Debug, Clone, Copy, PartialEq, Eq, Structural)]
pub enum CombinedDownloadRefusal {
    /// The job's files were purged.
    Purged,
    /// The variant is neither `summary` nor `translation`.
    UnknownVariant,
    /// No combined summary was written.
    SummaryMissing,
    /// No combined translation was written.
    TranslationMissing,
}

impl CombinedDownloadRefusal {
    pub open spec fn spec_message(self) -> Seq<char> {
        match self {
            CombinedDownloadRefusal::Purged => "该任务的下载文件已过期并被清除。"@,
            CombinedDownloadRefusal::UnknownVariant => "未知的下载类型。"@,
            CombinedDownloadRefusal::SummaryMissing => "汇总摘要尚不可用。"@,
            CombinedDownloadRefusal::TranslationMissing => "汇总译文尚不可用。"@,
        }
    }

    /// The message shown for the refusal.
    pub fn message(&self) -> (res: String)
        ensures
            res@ == self.spec_message(),
    {
        match self {
            CombinedDownloadRefusal::Purged => to_owned_string("该任务的下载文件已过期并被清除。"),
            CombinedDownloadRefusal::UnknownVariant => to_owned_string("未知的下载类型。"),
            CombinedDownloadRefusal::SummaryMissing => to_owned_string("汇总摘要尚不可用。"),
            CombinedDownloadRefusal::TranslationMissing => to_owned_string("汇总译文尚不可用。"),
        }
    }
}

/// Picks the combined file to download and the suffix of its download name.
pub fn select_combined_download(
    variant: &str,
    files_purged: bool,
    summary_path: Option<String>,
    translation_path: Option<String>,
) -> (res: Result<(String, &'static str), CombinedDownloadRefusal>)
    ensures
        files_purged ==> res == Err::<(String, &'static str), CombinedDownloadRefusal>(CombinedDownloadRefusal::Purged),
        !files_purged && variant@ == "summary"@ ==> match summary_path {
            Some(p) => res matches Ok((q, s)) && q == p && s@ == "combined-summary"@,
            None => res == Err::<(String, &'static str), CombinedDownloadRefusal>(CombinedDownloadRefusal::SummaryMissing),
        },
        !files_purged && variant@ == "translation"@ ==> match translation_path {
            Some(p) => res matches Ok((q, s)) && q == p && s@ == "combined-translation"@,
            None => res == Err::<(String, &'static str), CombinedDownloadRefusal>(CombinedDownloadRefusal::TranslationMissing),
        },
        !files_purged && variant@ != "summary"@ && variant@ != "translation"@ ==> res == Err::<
            (String, &'static str),
            CombinedDownloadRefusal,
        >(CombinedDownloadRefusal::UnknownVariant),
{
    if files_purged {
        return Err(CombinedDownloadRefusal::Purged);
    }
    proof {
        reveal_strlit("summary");
        reveal_strlit("translation");
        assert("summary"@[0] != "translation"@[0]);
    }
    if str_eq(variant, "summary") {
        match summary_path {
            Some(p) => Ok((p, "combined-summary")),
            None => Err(CombinedDownloadRefusal::SummaryMissing),
        }
    } else if str_eq(variant, "translation") {
        match translation_path {
            Some(p) => Ok((p, "combined-translation")),
            None => Err(CombinedDownloadRefusal::TranslationMissing),
        }
    } else {
        Err(CombinedDownloadRefusal::UnknownVariant)
    }
}

/// The status address of a job.
pub fn job_status_url(job_id: &str) -> (res: String)
    ensures
        res@ == "/api/summarizer/jobs/"@ + job_id@,
{
    let mut out = to_owned_string("/api/summarizer/jobs/");
    push_str(&mut out, job_id);
    out
}

/// The download address of a job's combined output.
pub fn combined_download_url(job_id: &str, variant: &str) -> (res: String)
    ensures
        res@ == "/api/summarizer/jobs/"@ + job_id@ + "/combined/"@ + variant@,
{
    let mut out = to_owned_string("/api/summarizer/jobs/");
    push_str(&mut out, job_id);
    push_str(&mut out, "/combined/");
    push_str(&mut out, variant);
    out
}

} // verus!
