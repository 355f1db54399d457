//! The shape of a request to a language model, how a model name selects its
//! provider, and how token usage is settled from what a provider reports.

use vstd::prelude::*;

use crate::text::{
    chars_of, find_from, join, occurs_at, push_char, push_str, spec_is_whitespace, str_eq, string_from_range,
    is_whitespace, trim, trim_range, to_owned_string,
};

verus! {

/// The language-model backends.
#[derive(Clone, Copy, Debug, PartialEq, Eq, Structural)]
pub enum LlmProvider {
    OpenRouter,
    Poe,
}

impl LlmProvider {
    pub open spec fn spec_name(self) -> Seq<char> {
        match self {
            LlmProvider::OpenRouter => "openrouter"@,
            LlmProvider::Poe => "poe"@,
        }
    }

    /// The provider's name, as it prefixes model names.
    pub fn as_str(&self) -> (res: &'static str)
        ensures
            res@ == self.spec_name(),
    {
        match self {
            LlmProvider::OpenRouter => "openrouter",
            LlmProvider::Poe => "poe",
        }
    }
}

/// The role of a chat message.
#[derive(Debug, Clone, Copy, PartialEq, Eq, Structural)]
pub enum MessageRole {
    System,
    User,
    Assistant,
    Tool,
}

impl MessageRole {
    pub open spec fn spec_name(self) -> Seq<char> {
        match self {
            MessageRole::System => "system"@,
            MessageRole::User => "user"@,
            MessageRole::Assistant => "assistant"@,
            MessageRole::Tool => "tool"@,
        }
    }

    /// The role's name in a provider payload.
    pub fn as_str(&self) -> (res: &'static str)
        ensures
            res@ == self.spec_name(),
    {
        match self {
            MessageRole::System => "system",
            MessageRole::User => "user",
            MessageRole::Assistant => "assistant",
            MessageRole::Tool => "tool",
        }
    }
}

/// One chat message.
#[derive(Debug, Clone)]
pub struct ChatMessage {
    pub role: MessageRole,
    pub text: String,
}

impl ChatMessage {
    pub fn new(role: MessageRole, text: String) -> (res: Self)
        ensures
            res.role == role,
            res.text@ == text@,
    {
        ChatMessage { role, text }
    }
}

/// The kinds of files a request can carry.
#[derive(Debug, Clone, Copy, PartialEq, Eq, Structural)]
pub enum AttachmentKind {
    Image,
    Audio,
    Pdf,
}

impl AttachmentKind {
    pub open spec fn spec_name(self) -> Seq<char> {
        match self {
            AttachmentKind::Image => "image"@,
            AttachmentKind::Audio => "audio"@,
            AttachmentKind::Pdf => "pdf"@,
        }
    }

    /// The kind's name in messages.
    pub fn as_str(&self) -> (res: &'static str)
        ensures
            res@ == self.spec_name(),
    {
        match self {
            AttachmentKind::Image => "image",
            AttachmentKind::Audio => "audio",
            AttachmentKind::Pdf => "pdf",
        }
    }
}

/// A file sent along with a request.
#[derive(Debug, Clone)]
pub struct FileAttachment {
    pub filename: String,
    pub content_type: String,
    pub kind: AttachmentKind,
    pub bytes: Vec<u8>,
}

impl FileAttachment {
    pub fn new(filename: String, content_type: String, kind: AttachmentKind, bytes: Vec<u8>) -> (res: Self)
        ensures
            res.filename@ == filename@,
            res.content_type@ == content_type@,
            res.kind == kind,
            res.bytes@ == bytes@,
    {
        FileAttachment { filename, content_type, kind, bytes }
    }
}

/// A chat-style request: the model (prefixed by its provider), the messages
/// and the attached files.
#[derive(Debug, Clone)]
pub struct LlmRequest {
    pub model: String,
    pub messages: Vec<ChatMessage>,
    pub attachments: Vec<FileAttachment>,
}

impl LlmRequest {
    /// A request without attachments.
    pub fn new(model: String, messages: Vec<ChatMessage>) -> (res: Self)
        ensures
            res.model@ == model@,
            res.messages@ == messages@,
            res.attachments@.len() == 0,
    {
        LlmRequest { model, messages, attachments: Vec::new() }
    }

    /// The same request with `attachments` in place of its attachments.
    pub fn with_attachments(self, attachments: Vec<FileAttachment>) -> (res: Self)
        ensures
            res.model == self.model,
            res.messages == self.messages,
            res.attachments@ == attachments@,
    {
        let mut req = self;
        req.attachments = attachments;
        req
    }
}

/// Token counts of one call.
#[derive(Debug, Clone, Copy, PartialEq, Eq, Structural)]
pub struct TokenUsage {
    pub prompt_tokens: usize,
    pub response_tokens: usize,
    pub total_tokens: usize,
}

impl Default for TokenUsage {
    fn default() -> (res: Self)
        ensures
            res.prompt_tokens == 0 && res.response_tokens == 0 && res.total_tokens == 0,
    {
        TokenUsage { prompt_tokens: 0, response_tokens: 0, total_tokens: 0 }
    }
}

/// Why a model name does not select a model.
#[derive(Debug, Clone, PartialEq, Eq)]
pub enum ModelNameError {
    /// No `/` separates a provider from the model.
    MissingProvider,
    /// Nothing but whitespace follows the provider.
    MissingModel,
    /// The provider is neither `openrouter` nor `poe`.
    UnsupportedProvider(String),
}

impl ModelNameError {
    pub open spec fn spec_message(self) -> Seq<char> {
        match self {
            ModelNameError::MissingProvider => "model must be prefixed with provider, e.g. 'openrouter/openai/gpt-4o'"@,
            ModelNameError::MissingModel => "model name is required after provider prefix"@,
            ModelNameError::UnsupportedProvider(p) => "unsupported provider prefix: "@ + p@,
        }
    }

    /// The message reported for the error.
    pub fn message(&self) -> (res: String)
        ensures
            res@ == self.spec_message(),
    {
        match self {
            ModelNameError::MissingProvider => to_owned_string(
                "model must be prefixed with provider, e.g. 'openrouter/openai/gpt-4o'",
            ),
            ModelNameError::MissingModel => to_owned_string("model name is required after provider prefix"),
            ModelNameError::UnsupportedProvider(p) => {
                let mut out = to_owned_string("unsupported provider prefix: ");
                push_str(&mut out, p.as_str());
                out
            },
        }
    }
}

/// The provider and the provider's model that a model name selects: the
/// name is split at its first `/`.
pub open spec fn model_selection(model: Seq<char>) -> Result<(LlmProvider, Seq<char>), Seq<char>> {
    let k = find_from(model, seq!['/'], 0);
    if k < 0 {
        Err(Seq::empty())
    } else {
        let provider = model.take(k);
        let name = model.skip(k + 1);
        if trim(name).len() == 0 {
            Err(Seq::empty())
        } else if provider == "openrouter"@ {
            Ok((LlmProvider::OpenRouter, name))
        } else if provider == "poe"@ {
            Ok((LlmProvider::Poe, name))
        } else {
            Err(provider)
        }
    }
}

/// Splits a model name such as `openrouter/openai/gpt-4o` into its provider
/// and the provider's model name.
pub fn parse_model_provider(model: &str) -> (res: Result<(LlmProvider, String), ModelNameError>)
    ensures
        match res {
            Ok((provider, name)) => model_selection(model@) == Ok::<(LlmProvider, Seq<char>), Seq<char>>(
                (provider, name@),
            ),
            Err(ModelNameError::MissingProvider) => find_from(model@, seq!['/'], 0) < 0,
            Err(ModelNameError::MissingModel) => {
                let k = find_from(model@, seq!['/'], 0);
                k >= 0 && trim(model@.skip(k + 1)).len() == 0
            },
            Err(ModelNameError::UnsupportedProvider(p)) => {
                let k = find_from(model@, seq!['/'], 0);
                k >= 0 && trim(model@.skip(k + 1)).len() != 0 && model_selection(model@) == Err::<
                    (LlmProvider, Seq<char>),
                    Seq<char>,
                >(p@) && p@ == model@.take(k)
            },
        },
{
    let v = chars_of(model);
    let ghost slash = seq!['/'];
    let mut k: usize = 0;
    while k < v.len() && v[k] != '/'
        invariant
            v@ == model@,
            slash == seq!['/'],
            k <= v.len(),
            find_from(v@, slash, 0) == find_from(v@, slash, k as int),
        decreases v.len() - k,
    {
        proof {
            if occurs_at(v@, slash, k as int) {
                assert(v@.subrange(k as int, k + 1)[0] == v@[k as int]);
                assert(slash[0] == '/');
            }
        }
        k = k + 1;
    }
    if k == v.len() {
        return Err(ModelNameError::MissingProvider);
    }
    assert(v@.subrange(k as int, k + 1) =~= slash);
    assert(find_from(v@, slash, k as int) == k);
    let trimmed = trim_range(&v, k + 1, v.len());
    assert(v@.subrange(k + 1, v@.len() as int) =~= v@.skip(k + 1));
    if trimmed.as_str().is_empty() {
        return Err(ModelNameError::MissingModel);
    }
    let provider = string_from_range(&v, 0, k);
    let name = string_from_range(&v, k + 1, v.len());
    assert(v@.subrange(0, k as int) =~= v@.take(k as int));
    if str_eq(provider.as_str(), "openrouter") {
        Ok((LlmProvider::OpenRouter, name))
    } else if str_eq(provider.as_str(), "poe") {
        Ok((LlmProvider::Poe, name))
    } else {
        Err(ModelNameError::UnsupportedProvider(provider))
    }
}

/// A provider's name, `/`, and a model name that is not blank select that
/// provider and that model: `parse_model_provider` undoes the prefixing.
pub proof fn lemma_model_name_round_trip(provider: LlmProvider, name: Seq<char>)
    requires
        trim(name).len() > 0,
    ensures
        model_selection(provider.spec_name() + seq!['/'] + name) == Ok::<(LlmProvider, Seq<char>), Seq<char>>(
            (provider, name),
        ),
{
    reveal_strlit("openrouter");
    reveal_strlit("poe");
    let p = provider.spec_name();
    let s = p + seq!['/'] + name;
    let slash = seq!['/'];
    assert forall|j: int| 0 <= j < p.len() implies !#[trigger] occurs_at(s, slash, j) by {
        if occurs_at(s, slash, j) {
            assert(s.subrange(j, j + 1)[0] == s[j]);
            assert(s[j] == p[j]);
        }
    }
    assert(s.subrange(p.len() as int, p.len() as int + 1) =~= slash);
    crate::text::lemma_find_from_at(s, slash, 0, p.len() as int);
    assert(s.take(p.len() as int) =~= p);
    assert(s.skip(p.len() as int + 1) =~= name);
    assert("poe"@ != "openrouter"@) by {
        assert("poe"@.len() != "openrouter"@.len());
    }
}

/// The number of whitespace-separated words in `s`.
pub open spec fn word_count(s: Seq<char>) -> nat
    decreases s.len(),
{
    if s.len() == 0 {
        0
    } else if !spec_is_whitespace(s.last()) && (s.len() == 1 || spec_is_whitespace(s[s.len() - 2])) {
        word_count(s.drop_last()) + 1
    } else {
        word_count(s.drop_last())
    }
}

proof fn lemma_word_count_bound(s: Seq<char>)
    ensures
        word_count(s) <= s.len(),
    decreases s.len(),
{
    if s.len() > 0 {
        lemma_word_count_bound(s.drop_last());
    }
}

/// An estimate of the tokens of a text: its number of whitespace-separated
/// words.
pub fn approximate_token_count(input: &str) -> (res: usize)
    ensures
        res == word_count(input@),
{
    let v = chars_of(input);
    let mut count: usize = 0;
    let mut i: usize = 0;
    while i < v.len()
        invariant
            v@ == input@,
            i <= v.len(),
            count == word_count(v@.take(i as int)),
        decreases v.len() - i,
    {
        let ghost before = v@.take(i as int);
        let ghost after = v@.take(i + 1);
        assert(after.drop_last() =~= before);
        proof {
            lemma_word_count_bound(before);
        }
        let ws = is_whitespace(v[i]);
        if !ws && (i == 0 || is_whitespace(v[i - 1])) {
            count = count + 1;
        }
        i = i + 1;
    }
    assert(v@.take(v@.len() as int) =~= v@);
    count
}

/// The texts of the messages, in order.
pub open spec fn message_texts(messages: Seq<ChatMessage>) -> Seq<Seq<char>> {
    messages.map_values(|m: ChatMessage| m.text@)
}

/// The texts of the messages joined by newlines: the text whose words
/// estimate the prompt's tokens.
pub fn prompt_text(messages: &Vec<ChatMessage>) -> (res: String)
    ensures
        res@ == join(message_texts(messages@), "\n"@),
{
    let ghost all = message_texts(messages@);
    let mut out = String::new();
    let mut k: usize = 0;
    while k < messages.len()
        invariant
            k <= messages.len(),
            all == message_texts(messages@),
            out@ == join(all.subrange(0, k as int), "\n"@),
        decreases messages.len() - k,
    {
        let ghost before = all.subrange(0, k as int);
        let ghost after = all.subrange(0, k + 1);
        assert(after.drop_last() =~= before);
        if k > 0 {
            push_char(&mut out, '\n');
        }
        push_str(&mut out, messages[k].text.as_str());
        k = k + 1;
        proof {
            reveal_strlit("\n");
            if k == 1 {
                assert(out@ =~= after[0]);
            } else {
                assert(out@ =~= join(before, "\n"@) + "\n"@ + after.last());
            }
        }
    }
    assert(all.subrange(0, messages@.len() as int) =~= all);
    out
}

/// The usage a call is charged: what the provider reported, where it
/// reported a count, else the estimates; the total is always the sum.
pub open spec fn settled_usage(reported: Option<TokenUsage>, prompt_estimate: usize, response_estimate: usize) -> (
    usize,
    usize,
) {
    match reported {
        Some(u) => (
            if u.prompt_tokens == 0 { prompt_estimate } else { u.prompt_tokens },
            if u.response_tokens == 0 { response_estimate } else { u.response_tokens },
        ),
        None => (prompt_estimate, response_estimate),
    }
}

/// Settles the usage of a call from the provider's report and the estimates
/// of the prompt's and the response's tokens.
pub fn settle_token_usage(reported: Option<TokenUsage>, prompt_estimate: usize, response_estimate: usize) -> (res:
    TokenUsage)
    requires
        prompt_estimate + response_estimate <= usize::MAX,
        settled_usage(reported, prompt_estimate, response_estimate).0 + settled_usage(
            reported,
            prompt_estimate,
            response_estimate,
        ).1 <= usize::MAX,
    ensures
        res.prompt_tokens == settled_usage(reported, prompt_estimate, response_estimate).0,
        res.response_tokens == settled_usage(reported, prompt_estimate, response_estimate).1,
        res.total_tokens == res.prompt_tokens + res.response_tokens,
{
    let mut usage = match reported {
        Some(u) => u,
        None => TokenUsage {
            prompt_tokens: prompt_estimate,
            response_tokens: response_estimate,
            total_tokens: prompt_estimate + response_estimate,
        },
    };
    if usage.prompt_tokens == 0 {
        usage.prompt_tokens = prompt_estimate;
    }
    if usage.response_tokens == 0 {
        usage.response_tokens = response_estimate;
    }
    usage.total_tokens = usage.prompt_tokens + usage.response_tokens;
    usage
}

/// Settles the usage as `settle_token_usage` does, or `None` when the
/// estimates or the settled counts do not add up within `usize`.
pub fn checked_settle_token_usage(reported: Option<TokenUsage>, prompt_estimate: usize, response_estimate: usize) -> (res:
    Option<TokenUsage>)
    ensures
        ({
            let (p, r) = settled_usage(reported, prompt_estimate, response_estimate);
            match res {
                None => prompt_estimate + response_estimate > usize::MAX || p + r > usize::MAX,
                Some(u) => prompt_estimate + response_estimate <= usize::MAX && p + r <= usize::MAX
                    && u.prompt_tokens == p && u.response_tokens == r && u.total_tokens == p + r,
            }
        }),
{
    let (p, r) = match reported {
        Some(u) => (
            if u.prompt_tokens == 0 { prompt_estimate } else { u.prompt_tokens },
            if u.response_tokens == 0 { response_estimate } else { u.response_tokens },
        ),
        None => (prompt_estimate, response_estimate),
    };
    if prompt_estimate.checked_add(response_estimate).is_none() || p.checked_add(r).is_none() {
        return None;
    }
    Some(settle_token_usage(reported, prompt_estimate, response_estimate))
}

/// Which text of a Responses payload counts: the first content part of type
/// `output_text` or `text` among the parts of items of type `message`, its
/// text or nothing when it has none; nothing when there is no such part.
pub open spec fn responses_text(items: Seq<(Seq<char>, Seq<(Seq<char>, Option<Seq<char>>)>)>) -> Seq<char>
    decreases items.len(),
{
    if items.len() == 0 {
        Seq::empty()
    } else if items[0].0 == "message"@ && first_text_part(items[0].1) is Some {
        first_text_part(items[0].1)->0
    } else {
        responses_text(items.drop_first())
    }
}

/// The text of the first part of type `output_text` or `text`, or nothing
/// when that part has no text; `None` when there is no such part.
pub open spec fn first_text_part(parts: Seq<(Seq<char>, Option<Seq<char>>)>) -> Option<Seq<char>>
    decreases parts.len(),
{
    if parts.len() == 0 {
        None
    } else if parts[0].0 == "output_text"@ || parts[0].0 == "text"@ {
        Some(match parts[0].1 {
            Some(t) => t,
            None => Seq::empty(),
        })
    } else {
        first_text_part(parts.drop_first())
    }
}

/// One output item of a Responses payload: its type, and its content parts
/// as type and optional text.
pub struct ResponseItem {
    pub item_type: String,
    pub content: Vec<(String, Option<String>)>,
}

/// An item as texts.
pub open spec fn response_item_view(item: ResponseItem) -> (Seq<char>, Seq<(Seq<char>, Option<Seq<char>>)>) {
    (item.item_type@, item.content@.map_values(|c: (String, Option<String>)| (c.0@, match c.1 {
        Some(t) => Some(t@),
        None => None,
    })))
}

/// The first text part of `parts`, as `first_text_part` picks it.
fn find_text_part(parts: &Vec<(String, Option<String>)>) -> (res: Option<String>)
    ensures
        match res {
            Some(t) => first_text_part(parts@.map_values(|c: (String, Option<String>)| (c.0@, match c.1 {
                Some(t) => Some(t@),
                None => None,
            }))) == Some(t@),
            None => first_text_part(parts@.map_values(|c: (String, Option<String>)| (c.0@, match c.1 {
                Some(t) => Some(t@),
                None => None,
            }))) is None,
        },
{
    let ghost views = parts@.map_values(|c: (String, Option<String>)| (c.0@, match c.1 {
        Some(t) => Some(t@),
        None => None,
    }));
    let mut i: usize = 0;
    assert(views.skip(0) =~= views);
    while i < parts.len()
        invariant
            i <= parts.len(),
            views == parts@.map_values(|c: (String, Option<String>)| (c.0@, match c.1 {
                Some(t) => Some(t@),
                None => None,
            })),
            first_text_part(views) == first_text_part(views.skip(i as int)),
        decreases parts.len() - i,
    {
        assert(views.skip(i as int).drop_first() =~= views.skip(i + 1));
        let kind = parts[i].0.as_str();
        if str_eq(kind, "output_text") || str_eq(kind, "text") {
            proof {
                reveal_strlit("output_text");
                reveal_strlit("text");
            }
            return match &parts[i].1 {
                Some(t) => Some(t.clone()),
                None => Some(String::new()),
            };
        }
        i = i + 1;
    }
    assert(views.skip(i as int).len() == 0);
    None
}

/// The text of a Responses payload, as `responses_text` picks it.
pub fn responses_payload_text(items: &Vec<ResponseItem>) -> (res: String)
    ensures
        res@ == responses_text(items@.map_values(|it: ResponseItem| response_item_view(it))),
{
    let ghost views = items@.map_values(|it: ResponseItem| response_item_view(it));
    let mut i: usize = 0;
    assert(views.skip(0) =~= views);
    while i < items.len()
        invariant
            i <= items.len(),
            views == items@.map_values(|it: ResponseItem| response_item_view(it)),
            responses_text(views) == responses_text(views.skip(i as int)),
        decreases items.len() - i,
    {
        assert(views.skip(i as int).drop_first() =~= views.skip(i + 1));
        if str_eq(items[i].item_type.as_str(), "message") {
            match find_text_part(&items[i].content) {
                Some(t) => {
                    return t;
                },
                None => {},
            }
        }
        i = i + 1;
    }
    assert(views.skip(i as int).len() == 0);
    String::new()
}

/// The text of a Chat Completions payload: the first choice's message that
/// has content, or nothing.
pub open spec fn chat_text(contents: Seq<Option<Seq<char>>>) -> Seq<char>
    decreases contents.len(),
{
    if contents.len() == 0 {
        Seq::empty()
    } else {
        match contents[0] {
            Some(t) => t,
            None => chat_text(contents.drop_first()),
        }
    }
}

/// The text of a Chat Completions payload, as `chat_text` picks it.
pub fn chat_payload_text(contents: &Vec<Option<String>>) -> (res: String)
    ensures
        res@ == chat_text(contents@.map_values(|c: Option<String>| match c {
            Some(t) => Some(t@),
            None => None,
        })),
{
    let ghost views = contents@.map_values(|c: Option<String>| match c {
        Some(t) => Some(t@),
        None => None,
    });
    let mut i: usize = 0;
    assert(views.skip(0) =~= views);
    while i < contents.len()
        invariant
            i <= contents.len(),
            views == contents@.map_values(|c: Option<String>| match c {
                Some(t) => Some(t@),
                None => None,
            }),
            chat_text(views) == chat_text(views.skip(i as int)),
        decreases contents.len() - i,
    {
        assert(views.skip(i as int).drop_first() =~= views.skip(i + 1));
        match &contents[i] {
            Some(t) => {
                return t.clone();
            },
            None => {},
        }
        i = i + 1;
    }
    assert(views.skip(i as int).len() == 0);
    String::new()
}

/// The index of the last message from the user.
pub open spec fn last_user_message(messages: Seq<ChatMessage>) -> int
    decreases messages.len(),
{
    if messages.len() == 0 {
        -1
    } else if messages.last().role == MessageRole::User {
        messages.len() - 1
    } else {
        last_user_message(messages.drop_last())
    }
}

/// Where attachment references go in a payload that holds one entry per
/// message: the last user message; where there is none and files are
/// attached, an empty user entry appended after the messages.
pub fn attachment_target(messages: &Vec<ChatMessage>, has_attachments: bool) -> (res: Option<usize>)
    ensures
        last_user_message(messages@) >= 0 ==> res == Some(last_user_message(messages@) as usize),
        last_user_message(messages@) < 0 ==> res == (if has_attachments {
            Some(messages@.len() as usize)
        } else {
            None::<usize>
        }),
{
    let mut i = messages.len();
    assert(messages@.take(i as int) =~= messages@);
    while i > 0
        invariant
            i <= messages.len(),
            last_user_message(messages@) == last_user_message(messages@.take(i as int)),
        decreases i,
    {
        assert(messages@.take(i as int).drop_last() =~= messages@.take(i - 1));
        if messages[i - 1].role == MessageRole::User {
            return Some(i - 1);
        }
        i = i - 1;
    }
    if has_attachments {
        Some(messages.len())
    } else {
        None
    }
}

} // verus!
