//! The forms of the module settings pages, what each accepts, and where the
//! browser is sent after a save.

use vstd::prelude::*;

use crate::config::{
    GraderModels, GraderPrompts, InfoExtractModels, InfoExtractPrompts, ReviewerModels, ReviewerPrompts,
    SummarizerModels, SummarizerPrompts,
};
use crate::text::{contains, contains_str, push_str, replace, replace_all, to_owned_string, trim, trim_str};

verus! {

/// `base?key=code`: a settings page with a status or error code.
pub open spec fn redirect_target(base: Seq<char>, key: Seq<char>, code: Seq<char>) -> Seq<char> {
    base + "?"@ + key + "="@ + code
}

/// Builds `base?key=code`.
pub fn redirect_with(base: &str, key: &str, code: &str) -> (res: String)
    ensures
        res@ == redirect_target(base@, key@, code@),
{
    let mut out = to_owned_string(base);
    push_str(&mut out, "?");
    push_str(&mut out, key);
    push_str(&mut out, "=");
    push_str(&mut out, code);
    out
}

/// The query of the dashboard pages: a status or an error code to report.
#[derive(Debug, Clone)]
pub struct DashboardQuery {
    pub status: Option<String>,
    pub error: Option<String>,
}

impl Default for DashboardQuery {
    fn default() -> (res: Self)
        ensures
            res.status is None && res.error is None,
    {
        DashboardQuery { status: None, error: None }
    }
}

/// The login form.
#[derive(Debug, Clone)]
pub struct LoginForm {
    pub username: String,
    pub password: String,
}

impl LoginForm {
    /// The user name looked up: the typed name, trimmed.
    pub fn login_name(&self) -> (res: String)
        ensures
            res@ == trim(self.username@),
    {
        trim_str(self.username.as_str())
    }
}

/// The grader's model form.
#[derive(Debug, Clone)]
pub struct GraderModelForm {
    pub grading_model: String,
    pub keyword_model: String,
    pub redirect: Option<String>,
}

/// The grader's prompt form.
#[derive(Debug, Clone)]
pub struct GraderPromptForm {
    pub grading_instructions: String,
    pub keyword_selection: String,
    pub redirect: Option<String>,
}

/// The information extractor's model form.
#[derive(Debug, Clone)]
pub struct ModelForm {
    pub extraction_model: String,
    pub redirect: Option<String>,
}

/// The information extractor's prompt form.
#[derive(Debug, Clone)]
pub struct PromptForm {
    pub system_prompt: String,
    pub response_guidance: String,
    pub redirect: Option<String>,
}

/// The summarizer's model form.
#[derive(Debug, Clone)]
pub struct SummarizerModelForm {
    pub summary_model: String,
    pub translation_model: String,
    pub redirect: Option<String>,
}

/// The summarizer's prompt form.
#[derive(Debug, Clone)]
pub struct SummarizerPromptForm {
    pub research_summary: String,
    pub general_summary: String,
    pub translation: String,
    pub redirect: Option<String>,
}

/// The referee's model form.
#[derive(Debug, Clone)]
pub struct ReviewerModelForm {
    pub round1_model_1: String,
    pub round1_model_2: String,
    pub round1_model_3: String,
    pub round1_model_4: String,
    pub round1_model_5: String,
    pub round1_model_6: String,
    pub round1_model_7: String,
    pub round1_model_8: String,
    pub round2_model: String,
    pub round3_model: String,
    pub redirect: Option<String>,
}

/// The referee's prompt form.
#[derive(Debug, Clone)]
pub struct ReviewerPromptForm {
    pub initial_prompt: String,
    pub initial_prompt_zh: String,
    pub secondary_prompt: String,
    pub secondary_prompt_zh: String,
    pub final_prompt: String,
    pub final_prompt_zh: String,
    pub redirect: Option<String>,
}

impl GraderModelForm {
    /// The models to store: both names trimmed; `None` when either is blank.
    pub fn validate(&self) -> (res: Option<GraderModels>)
        ensures
            (trim(self.grading_model@).len() == 0 || trim(self.keyword_model@).len() == 0) <==> res is None,
            res matches Some(m) ==> m.grading_model@ == trim(self.grading_model@) && m.keyword_model@ == trim(
                self.keyword_model@,
            ),
    {
        let grading = trim_str(self.grading_model.as_str());
        let keyword = trim_str(self.keyword_model.as_str());
        if grading.as_str().is_empty() || keyword.as_str().is_empty() {
            return None;
        }
        Some(GraderModels { grading_model: grading, keyword_model: keyword })
    }
}

impl GraderPromptForm {
    /// The prompts to store: both trimmed; `None` when either is blank.
    pub fn validate(&self) -> (res: Option<GraderPrompts>)
        ensures
            (trim(self.grading_instructions@).len() == 0 || trim(self.keyword_selection@).len() == 0) <==> res is None,
            res matches Some(p) ==> p.grading_instructions@ == trim(self.grading_instructions@)
                && p.keyword_selection@ == trim(self.keyword_selection@),
    {
        let grading = trim_str(self.grading_instructions.as_str());
        let keyword = trim_str(self.keyword_selection.as_str());
        if grading.as_str().is_empty() || keyword.as_str().is_empty() {
            return None;
        }
        Some(GraderPrompts { grading_instructions: grading, keyword_selection: keyword })
    }
}

impl ModelForm {
    /// The model to store, trimmed; `None` when blank.
    pub fn validate(&self) -> (res: Option<InfoExtractModels>)
        ensures
            trim(self.extraction_model@).len() == 0 <==> res is None,
            res matches Some(m) ==> m.extraction_model@ == trim(self.extraction_model@),
    {
        let model = trim_str(self.extraction_model.as_str());
        if model.as_str().is_empty() {
            return None;
        }
        Some(InfoExtractModels { extraction_model: model })
    }
}

impl PromptForm {
    /// The prompts to store, trimmed; `None` when either is blank.
    pub fn validate(&self) -> (res: Option<InfoExtractPrompts>)
        ensures
            (trim(self.system_prompt@).len() == 0 || trim(self.response_guidance@).len() == 0) <==> res is None,
            res matches Some(p) ==> p.system_prompt@ == trim(self.system_prompt@) && p.response_guidance@ == trim(
                self.response_guidance@,
            ),
    {
        let system = trim_str(self.system_prompt.as_str());
        let guidance = trim_str(self.response_guidance.as_str());
        if system.as_str().is_empty() || guidance.as_str().is_empty() {
            return None;
        }
        Some(InfoExtractPrompts { system_prompt: system, response_guidance: guidance })
    }
}

impl SummarizerModelForm {
    /// The models to store, trimmed; `None` when either is blank.
    pub fn validate(&self) -> (res: Option<SummarizerModels>)
        ensures
            (trim(self.summary_model@).len() == 0 || trim(self.translation_model@).len() == 0) <==> res is None,
            res matches Some(m) ==> m.summary_model@ == trim(self.summary_model@) && m.translation_model@ == trim(
                self.translation_model@,
            ),
    {
        let summary = trim_str(self.summary_model.as_str());
        let translation = trim_str(self.translation_model.as_str());
        if summary.as_str().is_empty() || translation.as_str().is_empty() {
            return None;
        }
        Some(SummarizerModels { summary_model: summary, translation_model: translation })
    }
}

impl SummarizerPromptForm {
    /// The prompts to store, trimmed; `None` when one is blank or the
    /// translation prompt lacks the glossary placeholder.
    pub fn validate(&self) -> (res: Option<SummarizerPrompts>)
        ensures
            (trim(self.research_summary@).len() == 0 || trim(self.general_summary@).len() == 0 || trim(
                self.translation@,
            ).len() == 0 || !contains(self.translation@, "{{GLOSSARY}}"@)) <==> res is None,
            res matches Some(p) ==> p.research_summary@ == trim(self.research_summary@) && p.general_summary@
                == trim(self.general_summary@) && p.translation@ == trim(self.translation@),
    {
        let research = trim_str(self.research_summary.as_str());
        let general = trim_str(self.general_summary.as_str());
        let translation = trim_str(self.translation.as_str());
        if research.as_str().is_empty() || general.as_str().is_empty() || translation.as_str().is_empty() {
            return None;
        }
        if !contains_str(self.translation.as_str(), "{{GLOSSARY}}") {
            return None;
        }
        Some(SummarizerPrompts { research_summary: research, general_summary: general, translation })
    }
}

impl ReviewerModelForm {
    /// The models to store, as typed.
    pub fn into_models(self) -> (res: ReviewerModels)
        ensures
            res.round1_model_1 == self.round1_model_1,
            res.round1_model_2 == self.round1_model_2,
            res.round1_model_3 == self.round1_model_3,
            res.round1_model_4 == self.round1_model_4,
            res.round1_model_5 == self.round1_model_5,
            res.round1_model_6 == self.round1_model_6,
            res.round1_model_7 == self.round1_model_7,
            res.round1_model_8 == self.round1_model_8,
            res.round2_model == self.round2_model,
            res.round3_model == self.round3_model,
    {
        ReviewerModels {
            round1_model_1: self.round1_model_1,
            round1_model_2: self.round1_model_2,
            round1_model_3: self.round1_model_3,
            round1_model_4: self.round1_model_4,
            round1_model_5: self.round1_model_5,
            round1_model_6: self.round1_model_6,
            round1_model_7: self.round1_model_7,
            round1_model_8: self.round1_model_8,
            round2_model: self.round2_model,
            round3_model: self.round3_model,
        }
    }
}

impl ReviewerPromptForm {
    /// The prompts to store, as typed.
    pub fn into_prompts(self) -> (res: ReviewerPrompts)
        ensures
            res.initial_prompt == self.initial_prompt,
            res.initial_prompt_zh == self.initial_prompt_zh,
            res.secondary_prompt == self.secondary_prompt,
            res.secondary_prompt_zh == self.secondary_prompt_zh,
            res.final_prompt == self.final_prompt,
            res.final_prompt_zh == self.final_prompt_zh,
    {
        ReviewerPrompts {
            initial_prompt: self.initial_prompt,
            initial_prompt_zh: self.initial_prompt_zh,
            secondary_prompt: self.secondary_prompt,
            secondary_prompt_zh: self.secondary_prompt_zh,
            final_prompt: self.final_prompt,
            final_prompt_zh: self.final_prompt_zh,
        }
    }
}

/// The page the referee's settings forms return to: the form's own
/// redirect, or the referee's settings page.
pub fn reviewer_redirect_path(redirect: Option<String>) -> (res: String)
    ensures
        res@ == match redirect {
            Some(r) => r@,
            None => "/dashboard/modules/referee"@,
        },
{
    match redirect {
        Some(r) => r,
        None => to_owned_string("/dashboard/modules/referee"),
    }
}

/// An error message made safe as a query value: `&` becomes `%26`, then
/// `=` becomes `%3D`.
pub open spec fn query_escaped(message: Seq<char>) -> Seq<char> {
    replace(replace(message, "&"@, "%26"@), "="@, "%3D"@)
}

/// Escapes `&` and `=` in an error message placed in a query.
pub fn escape_query_value(message: &str) -> (res: String)
    ensures
        res@ == query_escaped(message@),
{
    proof {
        reveal_strlit("&");
        reveal_strlit("=");
    }
    let first = replace_all(message, "&", "%26");
    replace_all(first.as_str(), "=", "%3D")
}

} // verus!
