use ai_toolkit::config::{
    configured_module, default_docx_prompts, default_grader_prompts, default_summarizer_models, ConfiguredModule,
    DocxTranslatorSettings, ModuleConfig, ModuleSettings, DEFAULT_SUMMARIZER_SUMMARY_MODEL,
};
use ai_toolkit::history::{
    check_history_query, history_limit, history_status_path, module_metadata, retention_interval,
    retention_seconds, status_source, HistoryQuery, JobKeyKind,
};
use ai_toolkit::auth::session_token;
use ai_toolkit::llm::{chat_payload_text, checked_settle_token_usage, responses_payload_text, ResponseItem};
use ai_toolkit::llm::{
    approximate_token_count, attachment_target, parse_model_provider, prompt_text, settle_token_usage,
    AttachmentKind, ChatMessage, FileAttachment, LlmProvider, LlmRequest, MessageRole, ModelNameError,
    TokenUsage,
};
use ai_toolkit::storage::{check_job_access, AccessDenial, AccessMessages, JobRecordAccess};
use ai_toolkit::status::JobStatus;
use ai_toolkit::text::escape_html;
use ai_toolkit::usage::{check_limits, parse_optional_limit, usage_event_amounts, LimitParseError, UsageSnapshot};

#[test]
fn model_names_select_providers() {
    let (p, name) = parse_model_provider("openrouter/openai/gpt-4o").unwrap();
    assert_eq!(p, LlmProvider::OpenRouter);
    assert_eq!(name, "openai/gpt-4o");
    assert_eq!(parse_model_provider("poe/Assistant").unwrap().0, LlmProvider::Poe);
    assert_eq!(parse_model_provider("gpt").unwrap_err(), ModelNameError::MissingProvider);
    assert_eq!(parse_model_provider("poe/  ").unwrap_err(), ModelNameError::MissingModel);
    let err = parse_model_provider("azure/x").unwrap_err();
    assert_eq!(err.message(), "unsupported provider prefix: azure");
    assert_eq!(LlmProvider::Poe.as_str(), "poe");
}

#[test]
fn token_estimates_count_words() {
    assert_eq!(approximate_token_count("  one two\tthree\n"), 3);
    assert_eq!(approximate_token_count("   "), 0);
    let messages = vec![
        ChatMessage::new(MessageRole::System, "a b".to_string()),
        ChatMessage::new(MessageRole::User, "c".to_string()),
    ];
    assert_eq!(prompt_text(&messages), "a b\nc");
}

#[test]
fn usage_is_settled_from_reports_and_estimates() {
    let u = settle_token_usage(None, 5, 7);
    assert_eq!((u.prompt_tokens, u.response_tokens, u.total_tokens), (5, 7, 12));
    let reported = TokenUsage { prompt_tokens: 0, response_tokens: 9, total_tokens: 100 };
    let u = settle_token_usage(Some(reported), 5, 7);
    assert_eq!((u.prompt_tokens, u.response_tokens, u.total_tokens), (5, 9, 14));
    let d = TokenUsage::default();
    assert_eq!(d.total_tokens, 0);
}

#[test]
fn attachments_go_to_last_user_message() {
    let messages = vec![
        ChatMessage::new(MessageRole::User, "a".to_string()),
        ChatMessage::new(MessageRole::Assistant, "b".to_string()),
    ];
    assert_eq!(attachment_target(&messages, true), Some(0));
    let system_only = vec![ChatMessage::new(MessageRole::System, "s".to_string())];
    assert_eq!(attachment_target(&system_only, true), Some(1));
    assert_eq!(attachment_target(&system_only, false), None);
}

#[test]
fn requests_are_built() {
    let req = LlmRequest::new("m".to_string(), Vec::new());
    assert!(req.attachments.is_empty());
    let file = FileAttachment::new("a.pdf".to_string(), "application/pdf".to_string(), AttachmentKind::Pdf, vec![1, 2]);
    let req = req.with_attachments(vec![file]);
    assert_eq!(req.attachments[0].bytes, vec![1, 2]);
    assert_eq!(AttachmentKind::Audio.as_str(), "audio");
    assert_eq!(MessageRole::Tool.as_str(), "tool");
}

#[test]
fn limits_parse() {
    assert_eq!(parse_optional_limit(None), Ok(None));
    assert_eq!(parse_optional_limit(Some("   ")), Ok(None));
    assert_eq!(parse_optional_limit(Some(" 42 ")), Ok(Some(42)));
    assert_eq!(parse_optional_limit(Some("+7")), Ok(Some(7)));
    assert_eq!(parse_optional_limit(Some("-1")), Err(LimitParseError::Negative));
    assert_eq!(parse_optional_limit(Some("12a")), Err(LimitParseError::Invalid));
    assert_eq!(parse_optional_limit(Some("9223372036854775808")), Err(LimitParseError::Invalid));
    assert_eq!(parse_optional_limit(Some("9223372036854775807")), Ok(Some(i64::MAX)));
    assert_eq!(LimitParseError::Negative.message(), "limit cannot be negative");
    assert_eq!(LimitParseError::Invalid.message(), "invalid limit value");
}

#[test]
fn usage_limits_decide() {
    let snap = UsageSnapshot { tokens: 10, units: 3, token_limit: Some(10), unit_limit: None };
    let err = check_limits(snap, 1).unwrap_err();
    assert_eq!(err.message(), "近 7 日累计令牌数已达上限（10/10）。");
    let snap = UsageSnapshot { tokens: 0, units: 3, token_limit: None, unit_limit: Some(4) };
    let err = check_limits(snap, 2).unwrap_err();
    assert_eq!(err.message(), "近 7 日累计任务数将超出上限（当前 3，本次 +2，上限 4）。");
    assert!(check_limits(snap, 1).is_ok());
    assert_eq!(usage_event_amounts(-5, 3), (0, 3));
}

#[test]
fn module_settings_install_and_read() {
    let mut settings = ModuleSettings::default();
    assert!(settings.summarizer().is_none());
    let docx = DocxTranslatorSettings { models: Default::default(), prompts: default_docx_prompts() };
    settings.install(ModuleConfig::TranslateDocx(docx));
    assert!(settings.translate_docx().is_some());
    assert!(settings.grader().is_none());
    assert_eq!(configured_module("translate_docx").unwrap(), ConfiguredModule::TranslateDocx);
    let err = configured_module("mystery").unwrap_err();
    assert_eq!(err.message(), "unknown module configuration found: mystery");
    assert_eq!(default_summarizer_models().summary_model, DEFAULT_SUMMARIZER_SUMMARY_MODEL);
    assert!(default_grader_prompts().keyword_selection.contains("{{KEYWORDS}}"));
}

#[test]
fn history_metadata() {
    let meta = module_metadata("grader").unwrap();
    assert_eq!(meta.label, "稿件评估");
    assert!(!meta.supports_downloads);
    assert!(module_metadata("nope").is_none());
    assert_eq!(history_status_path(&meta, "k1"), "/api/grader/jobs/k1");
    assert_eq!(history_limit(0), 1);
    assert_eq!(history_limit(500), 50);
    assert_eq!(history_limit(7), 7);
    assert_eq!(retention_seconds(), 86400);
    assert_eq!(retention_interval().as_secs(), 86400);
    let src = status_source("referee").unwrap();
    assert_eq!(src.table, "reviewer_jobs");
    assert_eq!(src.key_kind, JobKeyKind::Integer);
    let q = HistoryQuery { module: Some("bad".to_string()), limit: None };
    assert_eq!(check_history_query(&q).unwrap_err().message(), "未知模块标识。");
    let q = HistoryQuery { module: None, limit: None };
    assert_eq!(check_history_query(&q).unwrap(), 20);
}

#[test]
fn job_access_rules() {
    let owned = JobRecordAccess { owned_by_requester: true, files_purged: false };
    let other = JobRecordAccess { owned_by_requester: false, files_purged: false };
    let purged = JobRecordAccess { owned_by_requester: true, files_purged: true };
    assert_eq!(check_job_access(None, true), Err(AccessDenial::NotFound));
    assert_eq!(check_job_access(Some(other), false), Err(AccessDenial::Forbidden));
    assert_eq!(check_job_access(Some(other), true), Ok(other));
    assert_eq!(check_job_access(Some(purged), false), Err(AccessDenial::Purged));
    assert_eq!(check_job_access(Some(owned), false), Ok(owned));
    let messages = AccessMessages { not_found: "nf", forbidden: "fb", purged: "pg" };
    assert_eq!(messages.message_for(AccessDenial::Purged), "pg");
    assert_eq!(AccessDenial::Purged.status_code(), 410);
}

#[test]
fn uuids_are_recognized() {
    assert!(session_token(Some("936da01f-9abd-4d9d-80c7-02af85c822a8")).is_ok());
    assert!(session_token(Some("936DA01F9ABD4D9D80C702AF85C822A8")).is_ok());
    assert!(session_token(Some("{936da01f-9abd-4d9d-80c7-02af85c822a8}")).is_ok());
    assert!(session_token(Some("URN:uuid:936da01f-9abd-4d9d-80c7-02af85c822a8")).is_ok());
    assert!(!session_token(Some("936da01f-9abd-4d9d-80c7-02af85c822ag")).is_ok());
    assert!(!session_token(Some("")).is_ok());
}

#[test]
fn statuses_round_trip() {
    for s in ["pending", "processing", "completed", "failed", "queued", "archived"] {
        assert_eq!(JobStatus::from_str(s).as_str(), s);
    }
    assert_eq!(JobStatus::from_str("failed").label_zh(), "已失败");
}

#[test]
fn escaping_is_complete() {
    assert_eq!(escape_html("<a href=\"x\">'&'</a>"), "&lt;a href=&quot;x&quot;&gt;&#39;&amp;&#39;&lt;/a&gt;");
}

#[test]
fn reply_text_is_picked_from_the_payload() {
    let items = vec![
        ResponseItem { item_type: "reasoning".to_string(), content: vec![("output_text".to_string(), Some("no".to_string()))] },
        ResponseItem {
            item_type: "message".to_string(),
            content: vec![("refusal".to_string(), Some("x".to_string())), ("output_text".to_string(), Some("yes".to_string()))],
        },
    ];
    assert_eq!(responses_payload_text(&items), "yes");
    let empty_part = vec![ResponseItem { item_type: "message".to_string(), content: vec![("text".to_string(), None)] }];
    assert_eq!(responses_payload_text(&empty_part), "");
    assert_eq!(responses_payload_text(&Vec::new()), "");
    assert_eq!(chat_payload_text(&vec![None, Some("second".to_string()), Some("third".to_string())]), "second");
    assert_eq!(chat_payload_text(&vec![None]), "");
}

#[test]
fn usage_is_settled_only_when_it_fits() {
    let reported = TokenUsage { prompt_tokens: 0, response_tokens: 7, total_tokens: 99 };
    let usage = checked_settle_token_usage(Some(reported), 3, 4).unwrap();
    assert_eq!((usage.prompt_tokens, usage.response_tokens, usage.total_tokens), (3, 7, 10));
    let huge = TokenUsage { prompt_tokens: usize::MAX, response_tokens: 1, total_tokens: 0 };
    assert!(checked_settle_token_usage(Some(huge), 1, 1).is_none());
    assert!(checked_settle_token_usage(None, usize::MAX, 1).is_none());
}
