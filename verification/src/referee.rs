//! The manuscript referee: the form's language and file checks, the
//! prompts and requests of the three review rounds, the first round's
//! quorum, and the overview of a job's reviews.

use vstd::prelude::*;

use crate::config::{ReviewerModels, ReviewerPrompts};
use crate::grader::eq_ignore_case;
use crate::llm::{AttachmentKind, ChatMessage, FileAttachment, LlmRequest, MessageRole};
use crate::text::{
    ascii_lower, decimal, join, join_strings, push_decimal, push_signed_decimal, push_str, signed_decimal,
    str_eq, to_ascii_lowercase, to_owned_string, views_of, chars_of, string_from_range,
};

verus! {

/// Reviews requested in the first round.
pub const ROUND1_REVIEWS: usize = 8;

/// Attempts per first-round review.
pub const ROUND1_RETRIES: usize = 3;

/// First-round reviews needed to go on.
pub const ROUND1_MIN_SUCCESSES: usize = 4;

/// The language the review is written in.
#[derive(Debug, Clone, Copy, PartialEq, Eq, Structural)]
pub enum ReviewLanguage {
    English,
    Chinese,
}

impl ReviewLanguage {
    pub open spec fn spec_str(self) -> Seq<char> {
        match self {
            ReviewLanguage::English => "english"@,
            ReviewLanguage::Chinese => "chinese"@,
        }
    }

    /// The value stored for the language.
    pub fn as_str(&self) -> (res: &'static str)
        ensures
            res@ == self.spec_str(),
    {
        match self {
            ReviewLanguage::English => "english",
            ReviewLanguage::Chinese => "chinese",
        }
    }
}

/// Why a referee submission was refused.
#[derive(Debug, Clone, Copy, PartialEq, Eq, Structural)]
pub enum ReviewSubmissionError {
    InvalidLanguage,
    NoFile,
    UnsupportedFile,
}

impl ReviewSubmissionError {
    pub open spec fn spec_message(self) -> Seq<char> {
        match self {
            ReviewSubmissionError::InvalidLanguage => "Invalid language"@,
            ReviewSubmissionError::NoFile => "No file provided"@,
            ReviewSubmissionError::UnsupportedFile => "Only PDF and DOCX files are accepted"@,
        }
    }

    /// The message answered.
    pub fn message(&self) -> (res: &'static str)
        ensures
            res@ == self.spec_message(),
    {
        match self {
            ReviewSubmissionError::InvalidLanguage => "Invalid language",
            ReviewSubmissionError::NoFile => "No file provided",
            ReviewSubmissionError::UnsupportedFile => "Only PDF and DOCX files are accepted",
        }
    }
}

/// The language chosen on the form: `english` when absent; only `english`
/// and `chinese` are accepted, exactly as written.
pub fn parse_language(value: Option<&str>) -> (res: Result<ReviewLanguage, ReviewSubmissionError>)
    ensures
        match value {
            None => res == Ok::<ReviewLanguage, ReviewSubmissionError>(ReviewLanguage::English),
            Some(v) => if v@ == "english"@ {
                res == Ok::<ReviewLanguage, ReviewSubmissionError>(ReviewLanguage::English)
            } else if v@ == "chinese"@ {
                res == Ok::<ReviewLanguage, ReviewSubmissionError>(ReviewLanguage::Chinese)
            } else {
                res == Err::<ReviewLanguage, ReviewSubmissionError>(ReviewSubmissionError::InvalidLanguage)
            },
        },
{
    match value {
        None => Ok(ReviewLanguage::English),
        Some(v) => {
            if str_eq(v, "english") {
                Ok(ReviewLanguage::English)
            } else if str_eq(v, "chinese") {
                Ok(ReviewLanguage::Chinese)
            } else {
                Err(ReviewSubmissionError::InvalidLanguage)
            }
        },
    }
}

/// The kind of manuscript file.
#[derive(Debug, Clone, Copy, PartialEq, Eq, Structural)]
pub enum ManuscriptKind {
    Pdf,
    Docx,
}

/// The part of a file name after its last `.` (all of it without a dot),
/// lower-cased.
pub open spec fn last_extension(name: Seq<char>) -> Seq<char> {
    ascii_lower(name.subrange(crate::paths::last_index_of(name, '.') + 1, name.len() as int))
}

/// The kind of an uploaded manuscript by its name: only PDF and DOCX files
/// are reviewed.
pub fn manuscript_kind(name: &str) -> (res: Result<ManuscriptKind, ReviewSubmissionError>)
    ensures
        last_extension(name@) == "pdf"@ ==> res == Ok::<ManuscriptKind, ReviewSubmissionError>(ManuscriptKind::Pdf),
        last_extension(name@) == "docx"@ ==> res == Ok::<ManuscriptKind, ReviewSubmissionError>(ManuscriptKind::Docx),
        last_extension(name@) != "pdf"@ && last_extension(name@) != "docx"@ ==> res == Err::<
            ManuscriptKind,
            ReviewSubmissionError,
        >(ReviewSubmissionError::UnsupportedFile),
{
    let v = chars_of(name);
    let mut i: usize = v.len();
    assert(v@.take(v@.len() as int) =~= v@);
    while i > 0 && v[i - 1] != '.'
        invariant
            i <= v.len(),
            v@ == name@,
            crate::paths::last_index_of(v@, '.') == crate::paths::last_index_of(v@.take(i as int), '.'),
        decreases i,
    {
        assert(v@.take(i as int).drop_last() =~= v@.take(i - 1));
        i = i - 1;
    }
    let last = string_from_range(&v, i, v.len());
    let lower = to_ascii_lowercase(last.as_str());
    proof {
        reveal_strlit("pdf");
        reveal_strlit("docx");
        assert("pdf"@.len() != "docx"@.len());
    }
    if str_eq(lower.as_str(), "pdf") {
        Ok(ManuscriptKind::Pdf)
    } else if str_eq(lower.as_str(), "docx") {
        Ok(ManuscriptKind::Docx)
    } else {
        Err(ReviewSubmissionError::UnsupportedFile)
    }
}

/// The models of the first round, in order.
pub fn round1_models(models: &ReviewerModels) -> (res: Vec<String>)
    ensures
        views_of(res@) == seq![
            models.round1_model_1@,
            models.round1_model_2@,
            models.round1_model_3@,
            models.round1_model_4@,
            models.round1_model_5@,
            models.round1_model_6@,
            models.round1_model_7@,
            models.round1_model_8@,
        ],
{
    let mut v: Vec<String> = Vec::new();
    v.push(models.round1_model_1.clone());
    v.push(models.round1_model_2.clone());
    v.push(models.round1_model_3.clone());
    v.push(models.round1_model_4.clone());
    v.push(models.round1_model_5.clone());
    v.push(models.round1_model_6.clone());
    v.push(models.round1_model_7.clone());
    v.push(models.round1_model_8.clone());
    assert(views_of(v@) =~= seq![
        models.round1_model_1@,
        models.round1_model_2@,
        models.round1_model_3@,
        models.round1_model_4@,
        models.round1_model_5@,
        models.round1_model_6@,
        models.round1_model_7@,
        models.round1_model_8@,
    ]);
    v
}

/// The review rounds.
#[derive(Debug, Clone, Copy, PartialEq, Eq, Structural)]
pub enum ReviewRound {
    /// Independent reviews.
    Initial,
    /// The meta-review.
    Secondary,
    /// The fact check.
    Final,
}

/// The prompt of a round in a language.
pub open spec fn round_prompt_of(prompts: ReviewerPrompts, round: ReviewRound, language: ReviewLanguage) -> Seq<char> {
    match (round, language) {
        (ReviewRound::Initial, ReviewLanguage::English) => prompts.initial_prompt@,
        (ReviewRound::Initial, ReviewLanguage::Chinese) => prompts.initial_prompt_zh@,
        (ReviewRound::Secondary, ReviewLanguage::English) => prompts.secondary_prompt@,
        (ReviewRound::Secondary, ReviewLanguage::Chinese) => prompts.secondary_prompt_zh@,
        (ReviewRound::Final, ReviewLanguage::English) => prompts.final_prompt@,
        (ReviewRound::Final, ReviewLanguage::Chinese) => prompts.final_prompt_zh@,
    }
}

/// The prompt of a round in a language.
pub fn round_prompt<'a>(prompts: &'a ReviewerPrompts, round: ReviewRound, language: ReviewLanguage) -> (res: &'a str)
    ensures
        res@ == round_prompt_of(*prompts, round, language),
{
    match (round, language) {
        (ReviewRound::Initial, ReviewLanguage::English) => prompts.initial_prompt.as_str(),
        (ReviewRound::Initial, ReviewLanguage::Chinese) => prompts.initial_prompt_zh.as_str(),
        (ReviewRound::Secondary, ReviewLanguage::English) => prompts.secondary_prompt.as_str(),
        (ReviewRound::Secondary, ReviewLanguage::Chinese) => prompts.secondary_prompt_zh.as_str(),
        (ReviewRound::Final, ReviewLanguage::English) => prompts.final_prompt.as_str(),
        (ReviewRound::Final, ReviewLanguage::Chinese) => prompts.final_prompt_zh.as_str(),
    }
}

/// Whether the first round may go on: at least 4 reviews succeeded.
pub fn round1_quorum(successes: usize) -> (res: Result<String, String>)
    ensures
        successes >= ROUND1_MIN_SUCCESSES ==> (res matches Ok(m) && m@ == "Round 1 completed: "@ + decimal(
            successes as nat,
        ) + "/8 reviews succeeded"@),
        successes < ROUND1_MIN_SUCCESSES ==> (res matches Err(m) && m@ == "Round 1 failed: only "@ + decimal(
            successes as nat,
        ) + " out of 8 reviews succeeded (minimum 4)"@),
{
    if successes < ROUND1_MIN_SUCCESSES {
        let mut out = to_owned_string("Round 1 failed: only ");
        push_decimal(&mut out, successes as u64);
        push_str(&mut out, " out of 8 reviews succeeded (minimum 4)");
        Err(out)
    } else {
        let mut out = to_owned_string("Round 1 completed: ");
        push_decimal(&mut out, successes as u64);
        push_str(&mut out, "/8 reviews succeeded");
        Ok(out)
    }
}

/// The block of one first-round review in the meta-review prompt.
pub open spec fn review_block(idx: nat, text: Seq<char>) -> Seq<char> {
    "=== Review "@ + decimal(idx + 1) + " ===\n\n"@ + text + "\n\n"@
}

/// The first-round reviews that succeeded, as their indices and texts.
pub open spec fn review_blocks(reviews: Seq<(usize, String)>) -> Seq<Seq<char>> {
    reviews.map_values(|r: (usize, String)| review_block(r.0 as nat, r.1@))
}

/// The reviews put together for the meta-review, one block each, joined by
/// newlines.
pub fn combine_reviews(reviews: &Vec<(usize, String)>) -> (res: String)
    requires
        forall|j: int| 0 <= j < reviews@.len() ==> #[trigger] reviews@[j].0 < usize::MAX,
    ensures
        res@ == join(review_blocks(reviews@), "\n"@),
{
    let mut blocks: Vec<String> = Vec::new();
    let mut k: usize = 0;
    while k < reviews.len()
        invariant
            k <= reviews.len(),
            forall|j: int| 0 <= j < reviews@.len() ==> #[trigger] reviews@[j].0 < usize::MAX,
            blocks@.len() == k,
            forall|j: int| 0 <= j < k ==> #[trigger] blocks@[j]@ == review_block(reviews@[j].0 as nat, reviews@[j].1@),
        decreases reviews.len() - k,
    {
        let mut b = to_owned_string("=== Review ");
        push_decimal(&mut b, (reviews[k].0 + 1) as u64);
        push_str(&mut b, " ===\n\n");
        push_str(&mut b, reviews[k].1.as_str());
        push_str(&mut b, "\n\n");
        blocks.push(b);
        k = k + 1;
    }
    assert(views_of(blocks@) =~= review_blocks(reviews@));
    join_strings(&blocks, "\n")
}

/// The meta-review prompt: the round's prompt, a blank line, the reviews.
pub fn round2_full_prompt(prompt: &str, combined_reviews: &str) -> (res: String)
    ensures
        res@ == prompt@ + "\n\n"@ + combined_reviews@,
{
    let mut out = to_owned_string(prompt);
    push_str(&mut out, "\n\n");
    push_str(&mut out, combined_reviews);
    out
}

/// The fact-check prompt: the round's prompt and the meta-review under a
/// heading.
pub fn round3_full_prompt(prompt: &str, round2_text: &str) -> (res: String)
    ensures
        res@ == prompt@ + "\n\n=== Review Report ===\n\n"@ + round2_text@,
{
    let mut out = to_owned_string(prompt);
    push_str(&mut out, "\n\n=== Review Report ===\n\n");
    push_str(&mut out, round2_text);
    out
}

/// The request of a round: the prompt as the user's message, with the
/// manuscript attached as a PDF.
pub fn review_request(model: &str, prompt: &str, pdf_bytes: Vec<u8>) -> (res: LlmRequest)
    ensures
        res.model@ == model@,
        res.messages@.len() == 1,
        res.messages@[0].role == MessageRole::User,
        res.messages@[0].text@ == prompt@,
        res.attachments@.len() == 1,
        res.attachments@[0].filename@ == "manuscript.pdf"@,
        res.attachments@[0].content_type@ == "application/pdf"@,
        res.attachments@[0].kind == AttachmentKind::Pdf,
        res.attachments@[0].bytes@ == pdf_bytes@,
{
    let attachment = FileAttachment::new(
        to_owned_string("manuscript.pdf"),
        to_owned_string("application/pdf"),
        AttachmentKind::Pdf,
        pdf_bytes,
    );
    let mut messages: Vec<ChatMessage> = Vec::new();
    messages.push(ChatMessage::new(MessageRole::User, to_owned_string(prompt)));
    let mut attachments: Vec<FileAttachment> = Vec::new();
    attachments.push(attachment);
    LlmRequest::new(to_owned_string(model), messages).with_attachments(attachments)
}

/// The file name of first-round review `idx` (counted from zero).
pub fn round1_file_name(idx: usize) -> (res: String)
    requires
        idx < usize::MAX,
    ensures
        res@ == "round1_review_"@ + decimal((idx + 1) as nat) + ".docx"@,
{
    let mut out = to_owned_string("round1_review_");
    push_decimal(&mut out, (idx + 1) as u64);
    push_str(&mut out, ".docx");
    out
}

/// The message of a first-round review that failed every attempt.
pub fn round1_failure_message(idx: i32, last_error: &str) -> (res: String)
    ensures
        res@ == "Round 1 review "@ + signed_decimal(idx as int) + " failed after 3 attempts: "@ + last_error@,
{
    let mut out = to_owned_string("Round 1 review ");
    push_signed_decimal(&mut out, idx as i64);
    push_str(&mut out, " failed after 3 attempts: ");
    push_str(&mut out, last_error);
    out
}

/// A stored review as the status page reads it.
#[derive(Debug, Clone)]
pub struct ReviewDocument {
    pub round: i32,
    pub review_index: Option<i32>,
    pub model_name: String,
    pub file_path: Option<String>,
    pub completed: bool,
}

/// One review as shown on the status page.
#[derive(Debug, Clone)]
pub struct ReviewInfo {
    pub model: String,
    pub available: bool,
    pub download_url: Option<String>,
}

/// A review can be downloaded once it is completed and has a file.
pub open spec fn review_available(doc: ReviewDocument) -> bool {
    doc.completed && match doc.file_path {
        Some(p) => p@.len() > 0,
        None => false,
    }
}

/// The download address of a review.
pub open spec fn review_url(job_id: i32, round: int, idx: int) -> Seq<char> {
    "/api/referee/jobs/"@ + signed_decimal(job_id as int) + "/round/"@ + signed_decimal(round) + "/review/"@
        + signed_decimal(idx) + "/download"@
}

/// The index shown for a review: its index in the first round, else zero.
pub open spec fn shown_index(doc: ReviewDocument) -> int {
    if doc.round == 1 {
        match doc.review_index {
            Some(i) => i as int,
            None => 0,
        }
    } else {
        0
    }
}

/// The review as shown.
pub open spec fn review_info_matches(info: ReviewInfo, job_id: i32, doc: ReviewDocument) -> bool {
    &&& info.model@ == doc.model_name@
    &&& info.available == review_available(doc)
    &&& match info.download_url {
        Some(u) => review_available(doc) && u@ == review_url(job_id, doc.round as int, shown_index(doc)),
        None => !review_available(doc),
    }
}

fn review_info(job_id: i32, doc: &ReviewDocument) -> (res: ReviewInfo)
    ensures
        review_info_matches(res, job_id, *doc),
{
    let available = doc.completed && match &doc.file_path {
        Some(p) => !p.as_str().is_empty(),
        None => false,
    };
    let idx: i32 = if doc.round == 1 {
        match doc.review_index {
            Some(i) => i,
            None => 0,
        }
    } else {
        0
    };
    let url = if available {
        let mut u = to_owned_string("/api/referee/jobs/");
        push_signed_decimal(&mut u, job_id as i64);
        push_str(&mut u, "/round/");
        push_signed_decimal(&mut u, doc.round as i64);
        push_str(&mut u, "/review/");
        push_signed_decimal(&mut u, idx as i64);
        push_str(&mut u, "/download");
        Some(u)
    } else {
        None
    };
    ReviewInfo { model: doc.model_name.clone(), available, download_url: url }
}

/// The reviews of a job by round: the first round's in order, and the last
/// review stored for each of the second and third rounds.
pub struct ReviewOverview {
    pub round1: Vec<ReviewInfo>,
    pub round2: Option<ReviewInfo>,
    pub round3: Option<ReviewInfo>,
}

/// The stored reviews of one round, in order.
pub open spec fn docs_of_round(docs: Seq<ReviewDocument>, round: i32) -> Seq<ReviewDocument>
    decreases docs.len(),
{
    if docs.len() == 0 {
        Seq::empty()
    } else if docs.last().round == round {
        docs_of_round(docs.drop_last(), round).push(docs.last())
    } else {
        docs_of_round(docs.drop_last(), round)
    }
}

/// Sorts a job's stored reviews into the overview.
pub fn review_overview(job_id: i32, docs: &Vec<ReviewDocument>) -> (res: ReviewOverview)
    ensures
        res.round1@.len() == docs_of_round(docs@, 1).len(),
        forall|j: int|
            0 <= j < res.round1@.len() ==> review_info_matches(
                #[trigger] res.round1@[j],
                job_id,
                docs_of_round(docs@, 1)[j],
            ),
        docs_of_round(docs@, 2).len() == 0 ==> res.round2 is None,
        docs_of_round(docs@, 2).len() > 0 ==> (res.round2 matches Some(info) && review_info_matches(
            info,
            job_id,
            docs_of_round(docs@, 2).last(),
        )),
        docs_of_round(docs@, 3).len() == 0 ==> res.round3 is None,
        docs_of_round(docs@, 3).len() > 0 ==> (res.round3 matches Some(info) && review_info_matches(
            info,
            job_id,
            docs_of_round(docs@, 3).last(),
        )),
{
    let mut round1: Vec<ReviewInfo> = Vec::new();
    let mut round2: Option<ReviewInfo> = None;
    let mut round3: Option<ReviewInfo> = None;
    let mut k: usize = 0;
    while k < docs.len()
        invariant
            k <= docs.len(),
            round1@.len() == docs_of_round(docs@.take(k as int), 1).len(),
            forall|j: int|
                0 <= j < round1@.len() ==> review_info_matches(
                    #[trigger] round1@[j],
                    job_id,
                    docs_of_round(docs@.take(k as int), 1)[j],
                ),
            docs_of_round(docs@.take(k as int), 2).len() == 0 ==> round2 is None,
            docs_of_round(docs@.take(k as int), 2).len() > 0 ==> (round2 matches Some(info) && review_info_matches(
                info,
                job_id,
                docs_of_round(docs@.take(k as int), 2).last(),
            )),
            docs_of_round(docs@.take(k as int), 3).len() == 0 ==> round3 is None,
            docs_of_round(docs@.take(k as int), 3).len() > 0 ==> (round3 matches Some(info) && review_info_matches(
                info,
                job_id,
                docs_of_round(docs@.take(k as int), 3).last(),
            )),
        decreases docs.len() - k,
    {
        assert(docs@.take(k + 1).drop_last() =~= docs@.take(k as int));
        let info = review_info(job_id, &docs[k]);
        if docs[k].round == 1 {
            round1.push(info);
        } else if docs[k].round == 2 {
            round2 = Some(info);
        } else if docs[k].round == 3 {
            round3 = Some(info);
        }
        k = k + 1;
    }
    assert(docs@.take(docs@.len() as int) =~= docs@);
    ReviewOverview { round1, round2, round3 }
}

} // verus!
