//! The manuscript grader: the schedule of grading attempts, the requests it
//! sends, the keyword selection around them, and its status messages.

use vstd::prelude::*;

use crate::llm::{ChatMessage, LlmRequest, MessageRole};
use crate::text::{
    ascii_lower, decimal, join, join_strings, push_decimal, push_str, replace, replace_all, str_eq,
    to_ascii_lowercase, to_owned_string, trim, trim_str, views_of, chars_of, string_from_range,
};

verus! {

/// Whether a grader job with this stored status is processed: only a
/// pending one is.
pub fn should_process_job(stored_status: &str) -> (res: bool)
    ensures
        res == (stored_status@ == "pending"@),
{
    str_eq(stored_status, "pending")
}

/// Most grading attempts per job.
pub const MAX_ATTEMPTS: usize = 30;

/// Valid results after which no more attempts are made.
pub const TARGET_SUCCESSES: usize = 12;

/// Fewest valid results a grade is given on.
pub const MIN_SUCCESSES: usize = 8;

/// Most journals recommended.
pub const MAX_RECOMMENDATIONS: usize = 12;

/// Characters of the manuscript sent for keyword selection.
pub const KEYWORD_EXCERPT_CHARS: usize = 10000;

/// The attempts made so far on a grading job, the valid results among them,
/// and the tokens they took.
#[derive(Debug, Clone, Copy, PartialEq, Eq, Structural)]
pub struct GradingProgress {
    pub attempts_run: usize,
    pub valid_runs: usize,
    pub tokens: i64,
}

impl GradingProgress {
    pub open spec fn wf(self) -> bool {
        &&& self.valid_runs <= self.attempts_run <= MAX_ATTEMPTS
        &&& self.valid_runs <= TARGET_SUCCESSES
        &&& self.tokens >= 0
    }

    /// No attempt made yet.
    pub fn new() -> (res: Self)
        ensures
            res.wf(),
            res == (GradingProgress { attempts_run: 0, valid_runs: 0, tokens: 0 }),
    {
        GradingProgress { attempts_run: 0, valid_runs: 0, tokens: 0 }
    }

    pub open spec fn spec_should_attempt(self) -> bool {
        self.attempts_run < MAX_ATTEMPTS && self.valid_runs < TARGET_SUCCESSES
    }

    /// Whether another attempt is made: fewer than 30 made and fewer than 12
    /// valid.
    pub fn should_attempt(&self) -> (res: bool)
        ensures
            res == self.spec_should_attempt(),
    {
        self.attempts_run < MAX_ATTEMPTS && self.valid_runs < TARGET_SUCCESSES
    }

    /// Whether a pause is due before the next attempt: after the first.
    pub fn pause_before_next(&self) -> (res: bool)
        ensures
            res == (self.attempts_run >= 1),
    {
        self.attempts_run >= 1
    }

    /// Whether a reply's tokens can be added to the total within `i64`.
    pub fn tokens_fit(&self, reply_tokens: Option<usize>) -> (res: bool)
        requires
            self.wf(),
        ensures
            res == (reply_tokens matches Some(t) ==> self.tokens + t <= i64::MAX),
    {
        match reply_tokens {
            Some(t) => (t as u128) <= (i64::MAX as u128) && (t as i64) <= i64::MAX - self.tokens,
            None => true,
        }
    }

    /// Records an attempt: `reply_tokens` is `None` when the call failed;
    /// `valid` tells whether the reply gave a usable set of scores.
    pub fn record_attempt(&mut self, reply_tokens: Option<usize>, valid: bool)
        requires
            old(self).wf(),
            old(self).spec_should_attempt(),
            valid ==> reply_tokens is Some,
            reply_tokens matches Some(t) ==> old(self).tokens + t <= i64::MAX,
        ensures
            final(self).wf(),
            final(self).attempts_run == old(self).attempts_run + 1,
            final(self).valid_runs == old(self).valid_runs + (if valid { 1int } else { 0int }),
            final(self).tokens == old(self).tokens + match reply_tokens {
                Some(t) => t as int,
                None => 0int,
            },
    {
        self.attempts_run = self.attempts_run + 1;
        match reply_tokens {
            Some(t) => {
                self.tokens = self.tokens + (t as i64);
            },
            None => {},
        }
        if valid {
            self.valid_runs = self.valid_runs + 1;
        }
    }

    /// Whether enough valid results were collected for a grade.
    pub fn enough_runs(&self) -> (res: bool)
        ensures
            res == (self.valid_runs >= MIN_SUCCESSES),
    {
        self.valid_runs >= MIN_SUCCESSES
    }

    /// The progress message shown while attempts are made.
    pub fn progress_message(&self) -> (res: String)
        ensures
            res@ == "正在收集模型结果：已获得 "@ + decimal(self.valid_runs as nat) + " 次有效结果（共尝试 "@ + decimal(
                self.attempts_run as nat,
            ) + " 次）。"@,
    {
        let mut out = to_owned_string("正在收集模型结果：已获得 ");
        push_decimal(&mut out, self.valid_runs as u64);
        push_str(&mut out, " 次有效结果（共尝试 ");
        push_decimal(&mut out, self.attempts_run as u64);
        push_str(&mut out, " 次）。");
        out
    }
}

/// Attempts stop at the latest after 30, and when they stop either 30 were
/// made or 12 were valid.
pub proof fn lemma_attempts_stop(p: GradingProgress)
    requires
        p.wf(),
    ensures
        p.attempts_run <= MAX_ATTEMPTS,
        !p.spec_should_attempt() ==> p.attempts_run == MAX_ATTEMPTS || p.valid_runs == TARGET_SUCCESSES,
{
}

/// How the grade was reached.
pub fn decision_reason(valid_runs: usize, kept_runs: usize) -> (res: String)
    ensures
        res@ == "基于 "@ + decimal(valid_runs as nat) + " 次有效结果的加权评分，取其中 "@ + decimal(kept_runs as nat)
            + " 次的四分位平均值。"@,
{
    let mut out = to_owned_string("基于 ");
    push_decimal(&mut out, valid_runs as u64);
    push_str(&mut out, " 次有效结果的加权评分，取其中 ");
    push_decimal(&mut out, kept_runs as u64);
    push_str(&mut out, " 次的四分位平均值。");
    out
}

/// The request for one grading attempt.
pub fn build_grading_request(model: &str, system_prompt: &str, manuscript: &str) -> (res: LlmRequest)
    ensures
        res.model@ == model@,
        res.messages@.len() == 2,
        res.messages@[0].role == MessageRole::System,
        res.messages@[0].text@ == system_prompt@,
        res.messages@[1].role == MessageRole::User,
        res.messages@[1].text@ == "Manuscript to grade:\n\n"@ + manuscript@,
        res.attachments@.len() == 0,
{
    let mut user = to_owned_string("Manuscript to grade:\n\n");
    push_str(&mut user, manuscript);
    let mut messages: Vec<ChatMessage> = Vec::new();
    messages.push(ChatMessage::new(MessageRole::System, to_owned_string(system_prompt)));
    messages.push(ChatMessage::new(MessageRole::User, user));
    LlmRequest::new(to_owned_string(model), messages)
}

/// The trimmed, non-blank topic names, in order.
pub open spec fn keyword_names(names: Seq<Seq<char>>) -> Seq<Seq<char>>
    decreases names.len(),
{
    if names.len() == 0 {
        Seq::empty()
    } else if trim(names.last()).len() == 0 {
        keyword_names(names.drop_last())
    } else {
        keyword_names(names.drop_last()).push(trim(names.last()))
    }
}

/// The list of keywords offered to the model: the topic names, trimmed,
/// blank ones left out, separated by `, `.
pub fn keywords_list(topic_names: &Vec<String>) -> (res: String)
    ensures
        res@ == join(keyword_names(views_of(topic_names@)), ", "@),
{
    let ghost names = views_of(topic_names@);
    let mut kept: Vec<String> = Vec::new();
    let mut k: usize = 0;
    while k < topic_names.len()
        invariant
            k <= topic_names.len(),
            names == views_of(topic_names@),
            views_of(kept@) == keyword_names(names.take(k as int)),
        decreases topic_names.len() - k,
    {
        let t = trim_str(topic_names[k].as_str());
        assert(names.take(k + 1).drop_last() =~= names.take(k as int));
        if !t.as_str().is_empty() {
            kept.push(t);
        }
        k = k + 1;
        assert(views_of(kept@) =~= keyword_names(names.take(k as int)));
    }
    assert(names.take(topic_names@.len() as int) =~= names);
    join_strings(&kept, ", ")
}

/// The keyword prompt: the template with the keyword list in place of
/// `{{KEYWORDS}}`.
pub fn keyword_prompt(template: &str, keywords: &str) -> (res: String)
    ensures
        res@ == replace(template@, "{{KEYWORDS}}"@, keywords@),
{
    proof {
        reveal_strlit("{{KEYWORDS}}");
    }
    replace_all(template, "{{KEYWORDS}}", keywords)
}

/// The part of a manuscript sent for keyword selection: its first 10000
/// characters, or all of it when shorter.
pub fn keyword_excerpt(manuscript: &str) -> (res: String)
    ensures
        manuscript@.len() <= KEYWORD_EXCERPT_CHARS ==> res@ == manuscript@,
        manuscript@.len() > KEYWORD_EXCERPT_CHARS ==> res@ == manuscript@.take(KEYWORD_EXCERPT_CHARS as int),
{
    let v = chars_of(manuscript);
    let end = if v.len() <= KEYWORD_EXCERPT_CHARS {
        v.len()
    } else {
        KEYWORD_EXCERPT_CHARS
    };
    let res = string_from_range(&v, 0, end);
    assert(res@ =~= v@.take(end as int));
    assert(v@.take(v@.len() as int) =~= v@);
    res
}

/// The user message of the keyword request.
pub fn keyword_user_message(excerpt: &str) -> (res: String)
    ensures
        res@ == "稿件内容（前 10000 字符）：\n\n"@ + excerpt@,
{
    let mut out = to_owned_string("稿件内容（前 10000 字符）：\n\n");
    push_str(&mut out, excerpt);
    out
}

/// `a` and `b` are equal when ASCII letters are compared without case.
pub open spec fn eq_ignore_case(a: Seq<char>, b: Seq<char>) -> bool {
    ascii_lower(a) == ascii_lower(b)
}

/// Compares two texts as `str::eq_ignore_ascii_case` does.
pub fn eq_ignore_ascii_case(a: &str, b: &str) -> (res: bool)
    ensures
        res == eq_ignore_case(a@, b@),
{
    let la = to_ascii_lowercase(a);
    let lb = to_ascii_lowercase(b);
    str_eq(la.as_str(), lb.as_str())
}

/// Some keyword in `kept` equals `t` without regard to ASCII case.
pub open spec fn has_keyword(kept: Seq<Seq<char>>, t: Seq<char>) -> bool
    decreases kept.len(),
{
    if kept.len() == 0 {
        false
    } else {
        eq_ignore_case(kept.last(), t) || has_keyword(kept.drop_last(), t)
    }
}

/// The main keyword as kept: trimmed, and none when blank.
pub open spec fn main_keyword(main: Option<Seq<char>>) -> Option<Seq<char>> {
    match main {
        Some(m) => if trim(m).len() == 0 {
            None
        } else {
            Some(trim(m))
        },
        None => None,
    }
}

/// The peripheral keywords as kept: trimmed; blank ones, ones equal to the
/// main keyword and repeats (without regard to ASCII case) left out.
pub open spec fn peripheral_keywords(main: Option<Seq<char>>, peripherals: Seq<Seq<char>>) -> Seq<Seq<char>>
    decreases peripherals.len(),
{
    if peripherals.len() == 0 {
        Seq::empty()
    } else {
        let kept = peripheral_keywords(main, peripherals.drop_last());
        let t = trim(peripherals.last());
        if t.len() == 0 || (main is Some && eq_ignore_case(main->0, t)) || has_keyword(kept, t) {
            kept
        } else {
            kept.push(t)
        }
    }
}

/// The view of an optional string.
pub open spec fn opt_view(o: Option<String>) -> Option<Seq<char>> {
    match o {
        Some(s) => Some(s@),
        None => None,
    }
}

/// Whether some kept keyword equals `t` without regard to case.
fn contains_keyword(kept: &Vec<String>, t: &str) -> (res: bool)
    ensures
        res == has_keyword(views_of(kept@), t@),
{
    let ghost all = views_of(kept@);
    let mut k: usize = 0;
    while k < kept.len()
        invariant
            k <= kept.len(),
            all == views_of(kept@),
            forall|j: int| 0 <= j < k ==> !eq_ignore_case(#[trigger] all[j], t@),
        decreases kept.len() - k,
    {
        if eq_ignore_ascii_case(kept[k].as_str(), t) {
            proof {
                lemma_has_keyword_index(all, t@, k as int);
            }
            return true;
        }
        k = k + 1;
    }
    proof {
        lemma_has_keyword_none(all, t@);
    }
    false
}

proof fn lemma_has_keyword_index(kept: Seq<Seq<char>>, t: Seq<char>, j: int)
    requires
        0 <= j < kept.len(),
        eq_ignore_case(kept[j], t),
    ensures
        has_keyword(kept, t),
    decreases kept.len(),
{
    if j < kept.len() - 1 {
        assert(kept.drop_last()[j] == kept[j]);
        lemma_has_keyword_index(kept.drop_last(), t, j);
    }
}

proof fn lemma_has_keyword_none(kept: Seq<Seq<char>>, t: Seq<char>)
    requires
        forall|j: int| 0 <= j < kept.len() ==> !eq_ignore_case(#[trigger] kept[j], t),
    ensures
        !has_keyword(kept, t),
    decreases kept.len(),
{
    if kept.len() > 0 {
        assert forall|j: int| 0 <= j < kept.drop_last().len() implies !eq_ignore_case(#[trigger] kept.drop_last()[j], t) by {
            assert(kept.drop_last()[j] == kept[j]);
        }
        lemma_has_keyword_none(kept.drop_last(), t);
    }
}

/// Cleans the keywords a model chose: the main keyword trimmed (none when
/// blank); the peripheral ones trimmed, without blanks, without the main
/// keyword and without repeats, ignoring ASCII case.
pub fn normalize_keywords(main: Option<String>, peripherals: &Vec<String>) -> (res: (Option<String>, Vec<String>))
    ensures
        opt_view(res.0) == main_keyword(opt_view(main)),
        views_of(res.1@) == peripheral_keywords(main_keyword(opt_view(main)), views_of(peripherals@)),
{
    let main_kept: Option<String> = match main {
        Some(m) => {
            let t = trim_str(m.as_str());
            if t.as_str().is_empty() {
                None
            } else {
                Some(t)
            }
        },
        None => None,
    };
    let ghost mk = main_keyword(opt_view(main));
    assert(opt_view(main_kept) == mk);
    let ghost ps = views_of(peripherals@);
    let mut kept: Vec<String> = Vec::new();
    let mut k: usize = 0;
    while k < peripherals.len()
        invariant
            k <= peripherals.len(),
            ps == views_of(peripherals@),
            opt_view(main_kept) == mk,
            views_of(kept@) == peripheral_keywords(mk, ps.take(k as int)),
        decreases peripherals.len() - k,
    {
        assert(ps.take(k + 1).drop_last() =~= ps.take(k as int));
        let t = trim_str(peripherals[k].as_str());
        let same_as_main = match &main_kept {
            Some(m) => eq_ignore_ascii_case(m.as_str(), t.as_str()),
            None => false,
        };
        if !t.as_str().is_empty() && !same_as_main && !contains_keyword(&kept, t.as_str()) {
            let ghost before = views_of(kept@);
            kept.push(t);
            assert(views_of(kept@) =~= before.push(trim(ps[k as int])));
        }
        k = k + 1;
    }
    assert(ps.take(peripherals@.len() as int) =~= ps);
    (main_kept, kept)
}

/// The kept peripheral keywords are non-blank, differ from the main keyword
/// and from each other, ignoring ASCII case.
pub proof fn lemma_peripheral_keywords_distinct(main: Option<Seq<char>>, peripherals: Seq<Seq<char>>)
    ensures
        ({
            let kept = peripheral_keywords(main, peripherals);
            &&& forall|i: int| 0 <= i < kept.len() ==> #[trigger] kept[i].len() > 0
            &&& forall|i: int| 0 <= i < kept.len() ==> !(main is Some && eq_ignore_case(main->0, #[trigger] kept[i]))
            &&& forall|i: int, j: int| 0 <= i < j < kept.len() ==> !eq_ignore_case(#[trigger] kept[i], #[trigger] kept[j])
        }),
    decreases peripherals.len(),
{
    if peripherals.len() > 0 {
        lemma_peripheral_keywords_distinct(main, peripherals.drop_last());
        let prev = peripheral_keywords(main, peripherals.drop_last());
        let t = trim(peripherals.last());
        if !(t.len() == 0 || (main is Some && eq_ignore_case(main->0, t)) || has_keyword(prev, t)) {
            let kept = prev.push(t);
            assert forall|i: int, j: int| 0 <= i < j < kept.len() implies !eq_ignore_case(#[trigger] kept[i], #[trigger] kept[j]) by {
                if j == kept.len() - 1 {
                    if eq_ignore_case(kept[i], kept[j]) {
                        assert(kept[i] == prev[i]);
                        lemma_has_keyword_index(prev, t, i);
                    }
                } else {
                    assert(kept[i] == prev[i]);
                    assert(kept[j] == prev[j]);
                }
            }
            assert forall|i: int| 0 <= i < kept.len() implies #[trigger] kept[i].len() > 0 by {
                if i < prev.len() {
                    assert(kept[i] == prev[i]);
                }
            }
            assert forall|i: int| 0 <= i < kept.len() implies !(main is Some && eq_ignore_case(main->0, #[trigger] kept[i])) by {
                if i < prev.len() {
                    assert(kept[i] == prev[i]);
                }
            }
        }
    }
}

/// Every peripheral keyword that, trimmed, is not blank and differs from the
/// main keyword (ignoring ASCII case) is kept: the kept list holds a keyword
/// equal to it without regard to ASCII case.
pub proof fn lemma_peripheral_keywords_complete(main: Option<Seq<char>>, peripherals: Seq<Seq<char>>, j: int)
    requires
        0 <= j < peripherals.len(),
        trim(peripherals[j]).len() > 0,
        !(main is Some && ascii_lower(main->0) == ascii_lower(trim(peripherals[j]))),
    ensures
        exists|i: int|
            0 <= i < peripheral_keywords(main, peripherals).len() && ascii_lower(
                #[trigger] peripheral_keywords(main, peripherals)[i],
            ) == ascii_lower(trim(peripherals[j])),
    decreases peripherals.len(),
{
    let prev = peripheral_keywords(main, peripherals.drop_last());
    let kept = peripheral_keywords(main, peripherals);
    let t = trim(peripherals.last());
    let w = trim(peripherals[j]);
    if j < peripherals.len() - 1 {
        assert(peripherals.drop_last()[j] == peripherals[j]);
        lemma_peripheral_keywords_complete(main, peripherals.drop_last(), j);
        let i = choose|i: int| 0 <= i < prev.len() && ascii_lower(#[trigger] prev[i]) == ascii_lower(w);
        assert(kept[i] == prev[i]);
    } else {
        if has_keyword(prev, t) {
            let i = lemma_has_keyword_witness(prev, t);
            assert(kept[i] == prev[i]);
        } else {
            assert(kept[prev.len() as int] == t);
        }
    }
}

/// A keyword equal to `t` without regard to ASCII case, when `has_keyword`
/// says there is one.
proof fn lemma_has_keyword_witness(kept: Seq<Seq<char>>, t: Seq<char>) -> (i: int)
    requires
        has_keyword(kept, t),
    ensures
        0 <= i < kept.len(),
        ascii_lower(kept[i]) == ascii_lower(t),
    decreases kept.len(),
{
    if eq_ignore_case(kept.last(), t) {
        kept.len() - 1
    } else {
        let i = lemma_has_keyword_witness(kept.drop_last(), t);
        assert(kept.drop_last()[i] == kept[i]);
        i
    }
}

/// Every kept peripheral keyword is one of the given keywords, trimmed.
pub proof fn lemma_peripheral_keywords_from_input(main: Option<Seq<char>>, peripherals: Seq<Seq<char>>, i: int)
    requires
        0 <= i < peripheral_keywords(main, peripherals).len(),
    ensures
        exists|j: int|
            0 <= j < peripherals.len() && peripheral_keywords(main, peripherals)[i] == trim(#[trigger] peripherals[j]),
    decreases peripherals.len(),
{
    let prev = peripheral_keywords(main, peripherals.drop_last());
    let kept = peripheral_keywords(main, peripherals);
    if i < prev.len() {
        assert(kept[i] == prev[i]);
        lemma_peripheral_keywords_from_input(main, peripherals.drop_last(), i);
        let j = choose|j: int| 0 <= j < peripherals.drop_last().len() && prev[i] == trim(
            #[trigger] peripherals.drop_last()[j],
        );
        assert(peripherals.drop_last()[j] == peripherals[j]);
    } else {
        assert(kept[i] == trim(peripherals[peripherals.len() - 1]));
    }
}

/// Whether a file name's last `.`-separated part is `docx`, ignoring ASCII
/// case; a name without a dot is its own last part.
pub open spec fn is_docx_name(name: Seq<char>) -> bool {
    let k = crate::paths::last_index_of(name, '.');
    eq_ignore_case(name.subrange(k + 1, name.len() as int), "docx"@)
}

/// Tells whether an uploaded manuscript is a DOCX file by its name.
pub fn is_docx_file(name: &str) -> (res: bool)
    ensures
        res == is_docx_name(name@),
{
    let v = chars_of(name);
    let mut i: usize = v.len();
    assert(v@.take(v@.len() as int) =~= v@);
    while i > 0 && v[i - 1] != '.'
        invariant
            i <= v.len(),
            v@ == name@,
            crate::paths::last_index_of(v@, '.') == crate::paths::last_index_of(v@.take(i as int), '.'),
        decreases i,
    {
        assert(v@.take(i as int).drop_last() =~= v@.take(i - 1));
        i = i - 1;
    }
    proof {
        assert(v@.take(v@.len() as int) =~= v@);
    }
    let last = string_from_range(&v, i, v.len());
    eq_ignore_ascii_case(last.as_str(), "docx")
}

/// Why a grading job failed.
#[derive(Debug, Clone, Copy, PartialEq, Eq, Structural)]
pub enum GraderFailure {
    /// No text could be read from the manuscript.
    EmptyText,
    /// The grader has no settings.
    NotConfigured,
    /// Fewer than 8 valid results.
    TooFewResults,
}

impl GraderFailure {
    pub open spec fn spec_message(self) -> Seq<char> {
        match self {
            GraderFailure::EmptyText => "未能读取到稿件内容，请检查文件。"@,
            GraderFailure::NotConfigured => "未配置稿件评估设置，请联系管理员。"@,
            GraderFailure::TooFewResults => "模型未返回足够的有效结果，请稍后重试。"@,
        }
    }

    /// The message recorded on the job.
    pub fn message(&self) -> (res: String)
        ensures
            res@ == self.spec_message(),
    {
        match self {
            GraderFailure::EmptyText => to_owned_string("未能读取到稿件内容，请检查文件。"),
            GraderFailure::NotConfigured => to_owned_string("未配置稿件评估设置，请联系管理员。"),
            GraderFailure::TooFewResults => to_owned_string("模型未返回足够的有效结果，请稍后重试。"),
        }
    }
}

/// The document status once its text is read, `byte_len` being the text's
/// length in bytes.
pub fn extracted_text_status(byte_len: usize) -> (res: String)
    ensures
        res@ == "已提取文本，长度 "@ + decimal(byte_len as nat) + " 字符。"@,
{
    let mut out = to_owned_string("已提取文本，长度 ");
    push_decimal(&mut out, byte_len as u64);
    push_str(&mut out, " 字符。");
    out
}

} // verus!
