//! The DOCX translator: translation directions, the system prompt with its
//! glossary, the request for one chunk, the checks on an upload, and the
//! run of a job over its documents, chunk by chunk.

use vstd::prelude::*;

use crate::chunking::{
    apply_chunk_translation, chunk_matches, chunk_text, index_view, plan_translation_chunks,
    planned_chunks, string_views, write_segments, ChunkMismatch, TranslationChunk, PARAGRAPH_SEPARATOR,
    lemma_planned_indices_in_range,
};
use crate::glossary::{term_views, GlossaryTerm};
use crate::llm::{ChatMessage, LlmRequest, MessageRole};
use crate::paths::{extension_or_empty, file_stem_or, is_plain_file_name, spec_extension, spec_file_stem};
use crate::sanitize::{is_clean_name_of, is_kept_file_name, is_unsafe_file_name_char, sanitize_file_name};
use crate::status::JobStatus;
use crate::text::{
    ascii_lower, decimal, join, join_strings, push_decimal, push_str, replace, replace_all, split_trim,
    str_eq, to_ascii_lowercase, to_owned_string, trim, trim_str, views_of,
};

verus! {

/// Which way a document is translated.
#[derive(Debug, Clone, Copy, PartialEq, Eq, Structural)]
pub enum TranslationDirection {
    EnToCn,
    CnToEn,
}

impl TranslationDirection {
    pub open spec fn spec_db_value(self) -> Seq<char> {
        match self {
            TranslationDirection::EnToCn => "en_to_cn"@,
            TranslationDirection::CnToEn => "cn_to_en"@,
        }
    }

    pub open spec fn spec_label(self) -> Seq<char> {
        match self {
            TranslationDirection::EnToCn => "英文 → 中文"@,
            TranslationDirection::CnToEn => "中文 → 英文"@,
        }
    }

    /// The value stored for the direction.
    pub fn as_db_value(self) -> (res: &'static str)
        ensures
            res@ == self.spec_db_value(),
    {
        match self {
            TranslationDirection::EnToCn => "en_to_cn",
            TranslationDirection::CnToEn => "cn_to_en",
        }
    }

    /// The label shown for the direction.
    pub fn display_label(self) -> (res: &'static str)
        ensures
            res@ == self.spec_label(),
    {
        match self {
            TranslationDirection::EnToCn => "英文 → 中文",
            TranslationDirection::CnToEn => "中文 → 英文",
        }
    }

    /// The direction chosen on the form: `cn_to_en`, anything else is
    /// English to Chinese.
    pub fn from_form_value(value: &str) -> (res: Self)
        ensures
            res == (if value@ == "cn_to_en"@ {
                TranslationDirection::CnToEn
            } else {
                TranslationDirection::EnToCn
            }),
    {
        if str_eq(value, "cn_to_en") {
            TranslationDirection::CnToEn
        } else {
            TranslationDirection::EnToCn
        }
    }

    /// The direction a stored value names, read as on the form.
    pub fn from_db_value(value: &str) -> (res: Self)
        ensures
            res == (if value@ == "cn_to_en"@ {
                TranslationDirection::CnToEn
            } else {
                TranslationDirection::EnToCn
            }),
    {
        Self::from_form_value(value)
    }
}

/// Reading the stored value of a direction gives the direction back.
pub proof fn lemma_direction_round_trip(d: TranslationDirection)
    ensures
        (if d.spec_db_value() == "cn_to_en"@ {
            TranslationDirection::CnToEn
        } else {
            TranslationDirection::EnToCn
        }) == d,
{
    reveal_strlit("cn_to_en");
    reveal_strlit("en_to_cn");
    if d == TranslationDirection::EnToCn {
        assert("en_to_cn"@[0] != "cn_to_en"@[0]);
    }
}

/// The glossary line of a term, written in the direction of translation.
pub open spec fn docx_glossary_line(term: (Seq<char>, Seq<char>), direction: TranslationDirection) -> Seq<char> {
    match direction {
        TranslationDirection::EnToCn => "EN: "@ + term.0 + " -> CN: "@ + term.1,
        TranslationDirection::CnToEn => "CN: "@ + term.1 + " -> EN: "@ + term.0,
    }
}

/// The glossary block of the translator's prompt.
pub open spec fn docx_glossary(terms: Seq<(Seq<char>, Seq<char>)>, direction: TranslationDirection) -> Seq<char> {
    if terms.len() == 0 {
        "No glossary entries configured."@
    } else {
        join(terms.map_values(|t: (Seq<char>, Seq<char>)| docx_glossary_line(t, direction)), "\n"@)
    }
}

/// The system prompt: the direction's template with the glossary block and
/// the paragraph separator put in place of their placeholders.
pub open spec fn docx_prompt(template: Seq<char>, terms: Seq<(Seq<char>, Seq<char>)>, direction: TranslationDirection) -> Seq<char> {
    replace(
        replace(template, "{{GLOSSARY}}"@, docx_glossary(terms, direction)),
        "{{PARAGRAPH_SEPARATOR}}"@,
        PARAGRAPH_SEPARATOR@,
    )
}

/// The line of one term.
fn glossary_line(term: &GlossaryTerm, direction: TranslationDirection) -> (res: String)
    ensures
        res@ == docx_glossary_line((term.source_term@, term.target_term@), direction),
{
    match direction {
        TranslationDirection::EnToCn => {
            let mut out = to_owned_string("EN: ");
            push_str(&mut out, term.source_term.as_str());
            push_str(&mut out, " -> CN: ");
            push_str(&mut out, term.target_term.as_str());
            out
        },
        TranslationDirection::CnToEn => {
            let mut out = to_owned_string("CN: ");
            push_str(&mut out, term.target_term.as_str());
            push_str(&mut out, " -> EN: ");
            push_str(&mut out, term.source_term.as_str());
            out
        },
    }
}

/// Builds the glossary block.
fn glossary_block(terms: &Vec<GlossaryTerm>, direction: TranslationDirection) -> (res: String)
    ensures
        res@ == docx_glossary(term_views(terms@), direction),
{
    if terms.len() == 0 {
        return to_owned_string("No glossary entries configured.");
    }
    let ghost tv = term_views(terms@);
    let mut lines: Vec<String> = Vec::new();
    let mut k: usize = 0;
    while k < terms.len()
        invariant
            k <= terms.len(),
            tv == term_views(terms@),
            lines@.len() == k,
            forall|j: int| 0 <= j < k ==> #[trigger] lines@[j]@ == docx_glossary_line(tv[j], direction),
        decreases terms.len() - k,
    {
        let line = glossary_line(&terms[k], direction);
        lines.push(line);
        k = k + 1;
    }
    assert(views_of(lines@) =~= tv.map_values(|t: (Seq<char>, Seq<char>)| docx_glossary_line(t, direction)));
    join_strings(&lines, "\n")
}

/// The translator's system prompt for `direction`, from the prompt
/// templates and the glossary.
pub fn build_translation_prompt(
    en_to_cn: &str,
    cn_to_en: &str,
    terms: &Vec<GlossaryTerm>,
    direction: TranslationDirection,
) -> (res: String)
    ensures
        res@ == docx_prompt(
            match direction {
                TranslationDirection::EnToCn => en_to_cn@,
                TranslationDirection::CnToEn => cn_to_en@,
            },
            term_views(terms@),
            direction,
        ),
{
    proof {
        reveal_strlit("{{GLOSSARY}}");
        reveal_strlit("{{PARAGRAPH_SEPARATOR}}");
    }
    let template = match direction {
        TranslationDirection::EnToCn => en_to_cn,
        TranslationDirection::CnToEn => cn_to_en,
    };
    let glossary = glossary_block(terms, direction);
    let with_glossary = replace_all(template, "{{GLOSSARY}}", glossary.as_str());
    replace_all(with_glossary.as_str(), "{{PARAGRAPH_SEPARATOR}}", PARAGRAPH_SEPARATOR)
}

/// The user message asking for one chunk to be translated.
pub open spec fn chunk_instruction(chunk: Seq<char>, direction: TranslationDirection) -> Seq<char> {
    let (from, to) = match direction {
        TranslationDirection::EnToCn => ("EN"@, "CN"@),
        TranslationDirection::CnToEn => ("CN"@, "EN"@),
    };
    "Translate the following "@ + from + " paragraphs into "@ + to + " while preserving the separator "@
        + PARAGRAPH_SEPARATOR@ + ":\n\n"@ + chunk
}

/// The request for one chunk: the system prompt, then the instruction.
pub fn build_translation_request(model: &str, prompt: String, chunk: &str, direction: TranslationDirection) -> (res:
    LlmRequest)
    ensures
        res.model@ == model@,
        res.messages@.len() == 2,
        res.messages@[0].role == MessageRole::System,
        res.messages@[0].text@ == prompt@,
        res.messages@[1].role == MessageRole::User,
        res.messages@[1].text@ == chunk_instruction(chunk@, direction),
        res.attachments@.len() == 0,
{
    let mut instruction = to_owned_string("Translate the following ");
    match direction {
        TranslationDirection::EnToCn => {
            push_str(&mut instruction, "EN");
            push_str(&mut instruction, " paragraphs into ");
            push_str(&mut instruction, "CN");
        },
        TranslationDirection::CnToEn => {
            push_str(&mut instruction, "CN");
            push_str(&mut instruction, " paragraphs into ");
            push_str(&mut instruction, "EN");
        },
    }
    push_str(&mut instruction, " while preserving the separator ");
    push_str(&mut instruction, PARAGRAPH_SEPARATOR);
    push_str(&mut instruction, ":\n\n");
    push_str(&mut instruction, chunk);
    let system = ChatMessage::new(MessageRole::System, prompt);
    let user = ChatMessage::new(MessageRole::User, instruction);
    let mut messages: Vec<ChatMessage> = Vec::new();
    messages.push(system);
    messages.push(user);
    proof {
        let (from, to) = match direction {
            TranslationDirection::EnToCn => ("EN"@, "CN"@),
            TranslationDirection::CnToEn => ("CN"@, "EN"@),
        };
        assert(messages@[1].text@ =~= chunk_instruction(chunk@, direction));
    }
    LlmRequest::new(to_owned_string(model), messages)
}

/// Why an upload to the translator was refused.
#[derive(Debug, Clone, Copy, PartialEq, Eq, Structural)]
pub enum DocxUploadRefusal {
    /// A second file in one job.
    SecondFile,
    /// A file that is not a `.docx`.
    NotDocx,
    /// No file at all.
    NoFile,
}

impl DocxUploadRefusal {
    pub open spec fn spec_message(self) -> Seq<char> {
        match self {
            DocxUploadRefusal::SecondFile => "每个任务仅支持上传一个 DOCX 文件。"@,
            DocxUploadRefusal::NotDocx => "仅支持上传 DOCX 文件。"@,
            DocxUploadRefusal::NoFile => "请上传一个 DOCX 文件。"@,
        }
    }

    /// The message shown for the refusal.
    pub fn message(&self) -> (res: String)
        ensures
            res@ == self.spec_message(),
    {
        match self {
            DocxUploadRefusal::SecondFile => to_owned_string("每个任务仅支持上传一个 DOCX 文件。"),
            DocxUploadRefusal::NotDocx => to_owned_string("仅支持上传 DOCX 文件。"),
            DocxUploadRefusal::NoFile => to_owned_string("请上传一个 DOCX 文件。"),
        }
    }
}

/// The lower-cased extension of a plain file name, empty when it has none.
pub open spec fn lower_extension(name: Seq<char>) -> Seq<char> {
    match spec_extension(name) {
        Some(e) => ascii_lower(e),
        None => Seq::empty(),
    }
}

/// The lower-cased extension of a sanitized name.
pub(crate) fn clean_lower_extension(name: &str) -> (res: String)
    requires
        forall|i: int| 0 <= i < name@.len() ==> !is_unsafe_file_name_char(#[trigger] name@[i]),
        name@ != seq!['.'] && name@ != seq!['.', '.'],
    ensures
        res@ == lower_extension(name@),
{
    let ext = extension_or_empty(name);
    let lower = to_ascii_lowercase(ext.as_str());
    proof {
        if name@.len() == 0 {
            assert(spec_extension(name@) is None);
            assert(ascii_lower(Seq::<char>::empty()) =~= Seq::<char>::empty());
            assert(lower@ =~= lower_extension(name@));
        } else {
            assert forall|i: int| 0 <= i < name@.len() implies #[trigger] name@[i] != '/' && name@[i] != '\\'
                && name@[i] != ':' by {
                assert(!is_unsafe_file_name_char(name@[i]));
            }
            assert(is_plain_file_name(name@));
            if spec_extension(name@) is None {
                assert(ascii_lower(Seq::<char>::empty()) =~= Seq::<char>::empty());
            }
        }
    }
    lower
}

/// Checks an uploaded file by its sanitized name and gives the name it is
/// stored under: a job takes one file, and only a `.docx` one; the stored
/// name is `source_` and the sanitized name.
pub fn accept_docx_upload(already_have_file: bool, file_name: &str) -> (res: Result<String, DocxUploadRefusal>)
    ensures
        already_have_file ==> res == Err::<String, DocxUploadRefusal>(DocxUploadRefusal::SecondFile),
        !already_have_file ==> exists|clean: Seq<char>|
            #[trigger] is_clean_name_of(file_name@, clean) && match res {
                Ok(stored) => lower_extension(clean) == "docx"@ && stored@ == "source_"@ + clean,
                Err(e) => e == DocxUploadRefusal::NotDocx && lower_extension(clean) != "docx"@,
            },
{
    if already_have_file {
        return Err(DocxUploadRefusal::SecondFile);
    }
    let clean = sanitize_file_name(file_name);
    let lower = clean_lower_extension(clean.as_str());
    proof {
        assert(is_clean_name_of(file_name@, clean@));
    }
    if !str_eq(lower.as_str(), "docx") {
        return Err(DocxUploadRefusal::NotDocx);
    }
    let mut stored = to_owned_string("source_");
    push_str(&mut stored, clean.as_str());
    Ok(stored)
}

/// Why one document of a job was not translated.
#[derive(Debug, Clone, PartialEq, Eq)]
pub enum DocumentFailure {
    /// The DOCX could not be read.
    Unreadable,
    /// The document holds no text.
    NoContent,
    /// Planning produced no chunk.
    NoChunks,
    /// The model could not be reached.
    RequestFailed,
    /// The model returned nothing.
    EmptyReply,
    /// The reply's segments did not match the chunk's paragraphs.
    LayoutMismatch(ChunkMismatch),
}

impl DocumentFailure {
    pub open spec fn spec_detail(self) -> Seq<char> {
        match self {
            DocumentFailure::Unreadable => "Unable to read DOCX content."@,
            DocumentFailure::NoContent => "No translatable content found."@,
            DocumentFailure::NoChunks => "No translation chunks generated."@,
            DocumentFailure::RequestFailed => "Translation request failed."@,
            DocumentFailure::EmptyReply => "Translation response was empty."@,
            DocumentFailure::LayoutMismatch(_) => "Translation response did not match paragraph layout."@,
        }
    }

    /// The status detail recorded on the document.
    pub fn status_detail(&self) -> (res: String)
        ensures
            res@ == self.spec_detail(),
    {
        match self {
            DocumentFailure::Unreadable => to_owned_string("Unable to read DOCX content."),
            DocumentFailure::NoContent => to_owned_string("No translatable content found."),
            DocumentFailure::NoChunks => to_owned_string("No translation chunks generated."),
            DocumentFailure::RequestFailed => to_owned_string("Translation request failed."),
            DocumentFailure::EmptyReply => to_owned_string("Translation response was empty."),
            DocumentFailure::LayoutMismatch(_) => to_owned_string(
                "Translation response did not match paragraph layout.",
            ),
        }
    }
}

/// The translation of one document in progress: the paragraphs as far as
/// translated, the planned chunks, the next chunk to send and the tokens
/// spent.
pub struct DocumentTranslation {
    paragraphs: Vec<String>,
    chunks: Vec<TranslationChunk>,
    next: usize,
    tokens: i64,
    source: Ghost<Seq<Seq<char>>>,
}

impl DocumentTranslation {
    /// The paragraphs the document was read with.
    pub closed spec fn source(&self) -> Seq<Seq<char>> {
        self.source@
    }

    /// The paragraphs as far as translated.
    pub closed spec fn current(&self) -> Seq<Seq<char>> {
        views_of(self.paragraphs@)
    }

    /// The number of chunks already translated.
    pub closed spec fn done(&self) -> nat {
        self.next as nat
    }

    /// The tokens spent so far.
    pub closed spec fn spent(&self) -> int {
        self.tokens as int
    }

    /// The chunks of the document.
    pub closed spec fn chunk_list(&self) -> Seq<TranslationChunk> {
        self.chunks@
    }

    pub closed spec fn wf(&self) -> bool {
        &&& self.chunks@.len() == planned_chunks(self.source@).len()
        &&& forall|k: int|
            0 <= k < self.chunks@.len() ==> chunk_matches(
                #[trigger] self.chunks@[k],
                k,
                self.source@,
                planned_chunks(self.source@)[k],
            )
        &&& self.next <= self.chunks@.len()
        &&& self.paragraphs@.len() == self.source@.len()
        &&& self.tokens >= 0
    }

    /// Starts the translation of a document read as `paragraphs`: a document
    /// without paragraphs or without any chunk fails.
    pub fn start(paragraphs: Vec<String>) -> (res: Result<DocumentTranslation, DocumentFailure>)
        ensures
            paragraphs@.len() == 0 ==> res == Err::<DocumentTranslation, DocumentFailure>(DocumentFailure::NoContent),
            paragraphs@.len() > 0 && planned_chunks(string_views(paragraphs@)).len() == 0 ==> res == Err::<
                DocumentTranslation,
                DocumentFailure,
            >(DocumentFailure::NoChunks),
            paragraphs@.len() > 0 && planned_chunks(string_views(paragraphs@)).len() > 0 ==> res is Ok,
            res matches Ok(run) ==> {
                &&& run.wf()
                &&& run.source() == string_views(paragraphs@)
                &&& run.current() == string_views(paragraphs@)
                &&& run.done() == 0
                &&& run.spent() == 0
            },
    {
        if paragraphs.len() == 0 {
            return Err(DocumentFailure::NoContent);
        }
        let chunks = plan_translation_chunks(paragraphs.as_slice());
        if chunks.len() == 0 {
            return Err(DocumentFailure::NoChunks);
        }
        let ghost source = string_views(paragraphs@);
        assert(views_of(paragraphs@) =~= source);
        Ok(DocumentTranslation { paragraphs, chunks, next: 0, tokens: 0, source: Ghost(source) })
    }

    /// Whether every chunk has been translated.
    pub fn is_complete(&self) -> (res: bool)
        requires
            self.wf(),
        ensures
            res == (self.done() == self.chunk_list().len()),
    {
        self.next == self.chunks.len()
    }

    /// The chunk to translate next.
    pub fn pending_chunk(&self) -> (res: &TranslationChunk)
        requires
            self.wf(),
            self.done() < self.chunk_list().len(),
        ensures
            *res == self.chunk_list()[self.done() as int],
            chunk_matches(*res, self.done() as int, self.source(), planned_chunks(self.source())[self.done() as int]),
    {
        &self.chunks[self.next]
    }

    /// The number of chunks of the document.
    pub fn chunk_count(&self) -> (res: usize)
        requires
            self.wf(),
        ensures
            res == self.chunk_list().len(),
    {
        self.chunks.len()
    }

    /// The tokens spent so far.
    pub fn tokens_spent(&self) -> (res: i64)
        ensures
            res == self.spent(),
    {
        self.tokens
    }

    /// Takes the model's reply to the pending chunk: its tokens are counted;
    /// an empty reply (after trimming) or one whose segments do not match the
    /// chunk's paragraphs fails the document; otherwise the segments replace
    /// the chunk's paragraphs and the next chunk is pending.
    pub fn accept_reply(&mut self, reply: &str, reply_tokens: usize) -> (res: Result<(), DocumentFailure>)
        requires
            old(self).wf(),
            old(self).done() < old(self).chunk_list().len(),
            old(self).spent() + reply_tokens <= i64::MAX,
        ensures
            final(self).wf(),
            final(self).source() == old(self).source(),
            final(self).chunk_list() == old(self).chunk_list(),
            final(self).spent() == old(self).spent() + reply_tokens,
            ({
                let chunk = old(self).chunk_list()[old(self).done() as int];
                let text = trim(reply@);
                let parts = split_trim(text, PARAGRAPH_SEPARATOR@);
                let indices = index_view(chunk.paragraph_indices@);
                if text.len() == 0 {
                    &&& res == Err::<(), DocumentFailure>(DocumentFailure::EmptyReply)
                    &&& final(self).current() == old(self).current()
                    &&& final(self).done() == old(self).done()
                } else if parts.len() != indices.len() {
                    &&& res == Err::<(), DocumentFailure>(
                        DocumentFailure::LayoutMismatch(
                            ChunkMismatch { returned: parts.len() as usize, expected: indices.len() as usize },
                        ),
                    )
                    &&& final(self).current() == old(self).current()
                    &&& final(self).done() == old(self).done()
                } else {
                    &&& res is Ok
                    &&& final(self).current() == write_segments(old(self).current(), indices, parts, indices.len() as int)
                    &&& final(self).done() == old(self).done() + 1
                }
            }),
    {
        self.tokens = self.tokens + (reply_tokens as i64);
        let text = trim_str(reply);
        if text.as_str().is_empty() {
            return Err(DocumentFailure::EmptyReply);
        }
        let k = self.next;
        proof {
            lemma_planned_indices_in_range(self.source@, k as int);
            let chunk = self.chunks@[k as int];
            assert(chunk_matches(chunk, k as int, self.source@, planned_chunks(self.source@)[k as int]));
            assert forall|j: int| 0 <= j < chunk.paragraph_indices@.len() implies #[trigger] chunk.paragraph_indices@[j]
                < self.paragraphs@.len() by {
                assert(index_view(chunk.paragraph_indices@)[j] == chunk.paragraph_indices@[j] as int);
            }
        }
        let outcome = apply_chunk_translation(&mut self.paragraphs, &self.chunks[k], text.as_str());
        let total = self.chunks.len();
        assert(k < total);
        match outcome {
            Err(m) => Err(DocumentFailure::LayoutMismatch(m)),
            Ok(()) => {
                self.next = k + 1;
                Ok(())
            },
        }
    }

    /// The translated paragraphs, once every chunk is done.
    pub fn into_paragraphs(self) -> (res: Vec<String>)
        requires
            self.wf(),
        ensures
            views_of(res@) == self.current(),
    {
        self.paragraphs
    }
}

/// The status detail while a document is read.
pub open spec fn reading_detail(filename: Seq<char>, direction: TranslationDirection) -> Seq<char> {
    "Reading "@ + filename + " ("@ + direction.spec_label() + ")"@
}

/// Builds the status detail while a document is read.
pub fn reading_status(filename: &str, direction: TranslationDirection) -> (res: String)
    ensures
        res@ == reading_detail(filename@, direction),
{
    let mut out = to_owned_string("Reading ");
    push_str(&mut out, filename);
    push_str(&mut out, " (");
    push_str(&mut out, direction.display_label());
    push_str(&mut out, ")");
    out
}

/// The status detail while chunk `chunk_id` (counted from zero) of `total`
/// is translated.
pub open spec fn chunk_detail(filename: Seq<char>, direction: TranslationDirection, chunk_id: nat, total: nat) -> Seq<char> {
    "Translating "@ + filename + " ("@ + direction.spec_label() + ") chunk "@ + decimal(chunk_id + 1) + "/"@
        + decimal(total)
}

/// Builds the status detail while a chunk is translated.
pub fn chunk_status(filename: &str, direction: TranslationDirection, chunk_id: usize, total: usize) -> (res: String)
    requires
        chunk_id < total,
    ensures
        res@ == chunk_detail(filename@, direction, chunk_id as nat, total as nat),
{
    let mut out = to_owned_string("Translating ");
    push_str(&mut out, filename);
    push_str(&mut out, " (");
    push_str(&mut out, direction.display_label());
    push_str(&mut out, ") chunk ");
    push_decimal(&mut out, (chunk_id + 1) as u64);
    push_str(&mut out, "/");
    push_decimal(&mut out, total as u64);
    out
}

/// The file name of the `n`-th translated document (counted from one).
pub fn translated_file_name(n: u64) -> (res: String)
    ensures
        res@ == "translated_"@ + decimal(n as nat) + ".docx"@,
{
    let mut out = to_owned_string("translated_");
    push_decimal(&mut out, n);
    push_str(&mut out, ".docx");
    out
}

/// How a job ends: completed when at least one document was translated.
pub open spec fn job_outcome(success_count: int, direction: TranslationDirection) -> (JobStatus, Seq<char>) {
    if success_count > 0 {
        (
            JobStatus::Completed,
            "Completed "@ + decimal(success_count as nat) + " translated document(s) ("@ + direction.spec_label()
                + ")"@,
        )
    } else {
        (JobStatus::Failed, "Job finished but no documents were successfully translated"@)
    }
}

/// The final status and status detail of a job.
pub fn finish_job(success_count: u64, direction: TranslationDirection) -> (res: (JobStatus, String))
    ensures
        res.0 == job_outcome(success_count as int, direction).0,
        res.1@ == job_outcome(success_count as int, direction).1,
{
    if success_count > 0 {
        let mut out = to_owned_string("Completed ");
        push_decimal(&mut out, success_count);
        push_str(&mut out, " translated document(s) (");
        push_str(&mut out, direction.display_label());
        push_str(&mut out, ")");
        (JobStatus::Completed, out)
    } else {
        (JobStatus::Failed, to_owned_string("Job finished but no documents were successfully translated"))
    }
}

/// The download name of a translated document: the sanitized stem of the
/// uploaded file's name (`document` when the name has none), then
/// `_translated.docx`.
pub fn download_name(original_name: &str) -> (res: String)
    ensures
        exists|base: Seq<char>|
            {
                &&& res@ == base + "_translated.docx"@
                &&& forall|i: int| 0 <= i < base.len() ==> !is_unsafe_file_name_char(#[trigger] base[i])
            },
        is_plain_file_name(original_name@) && is_kept_file_name(spec_file_stem(original_name@)) ==> res@
            == spec_file_stem(original_name@) + "_translated.docx"@,
{
    let stem = file_stem_or(original_name, "document");
    let safe = sanitize_file_name(stem.as_str());
    let mut out = safe.clone();
    push_str(&mut out, "_translated.docx");
    assert(out@ == safe@ + "_translated.docx"@);
    out
}

} // verus!
