use ai_toolkit::admin_forms::{
    escape_query_value, redirect_with, reviewer_redirect_path, GraderModelForm, LoginForm, ModelForm,
    ReviewerPromptForm, SummarizerPromptForm,
};
use ai_toolkit::dashboard::{limit_value_attr, render_group_options, role_label, usage_summary, usage_text};
use ai_toolkit::grader::{
    build_grading_request, decision_reason, eq_ignore_ascii_case, extracted_text_status, is_docx_file,
    keyword_excerpt, keyword_prompt, keyword_user_message, keywords_list, normalize_keywords, GraderFailure,
    GradingProgress,
};
use ai_toolkit::grader::should_process_job;
use ai_toolkit::journals::{
    limits_to_store, read_journal_fields, read_topic_form, read_topic_scores, read_usage_group_form,
    GroupFormError, JournalFormError,
};
use ai_toolkit::referee::{
    combine_reviews, manuscript_kind, parse_language, review_overview, review_request, round1_file_name,
    round1_quorum, round2_full_prompt, round3_full_prompt, ManuscriptKind, ReviewDocument, ReviewLanguage,
    ReviewSubmissionError,
};

const TOPIC: &str = "936da01f-9abd-4d9d-80c7-02af85c822a8";

#[test]
fn settings_forms_validate() {
    let form = GraderModelForm { grading_model: " a ".to_string(), keyword_model: "b".to_string(), redirect: None };
    let models = form.validate().unwrap();
    assert_eq!(models.grading_model, "a");
    let form = GraderModelForm { grading_model: " ".to_string(), keyword_model: "b".to_string(), redirect: None };
    assert!(form.validate().is_none());
    let form = SummarizerPromptForm {
        research_summary: "r".to_string(),
        general_summary: "g".to_string(),
        translation: "no placeholder".to_string(),
        redirect: None,
    };
    assert!(form.validate().is_none());
    let form = ModelForm { extraction_model: " m ".to_string(), redirect: None };
    assert_eq!(form.validate().unwrap().extraction_model, "m");
    let form = ReviewerPromptForm {
        initial_prompt: "1".to_string(),
        initial_prompt_zh: "2".to_string(),
        secondary_prompt: "3".to_string(),
        secondary_prompt_zh: "4".to_string(),
        final_prompt: "5".to_string(),
        final_prompt_zh: "6".to_string(),
        redirect: None,
    };
    assert_eq!(form.into_prompts().final_prompt_zh, "6");
    assert_eq!(LoginForm { username: " bob ".to_string(), password: "x".to_string() }.login_name(), "bob");
}

#[test]
fn redirects_and_escaping() {
    assert_eq!(redirect_with("/dashboard", "status", "saved"), "/dashboard?status=saved");
    assert_eq!(reviewer_redirect_path(None), "/dashboard/modules/referee");
    assert_eq!(escape_query_value("a&b=c"), "a%26b%3Dc");
}

#[test]
fn grading_attempts_stop_on_target_or_cap() {
    let mut p = GradingProgress::new();
    let mut n = 0;
    while p.should_attempt() {
        p.record_attempt(Some(2), n % 2 == 0);
        n += 1;
    }
    assert_eq!(p.attempts_run, 23);
    assert_eq!(p.valid_runs, 12);
    assert_eq!(p.tokens, 46);
    assert!(p.enough_runs());
    let mut q = GradingProgress::new();
    while q.should_attempt() {
        q.record_attempt(None, false);
    }
    assert_eq!(q.attempts_run, 30);
    assert!(!q.enough_runs());
    assert_eq!(p.progress_message(), "正在收集模型结果：已获得 12 次有效结果（共尝试 23 次）。");
}

#[test]
fn grader_texts() {
    assert_eq!(decision_reason(10, 6), "基于 10 次有效结果的加权评分，取其中 6 次的四分位平均值。");
    assert_eq!(build_grading_request("m", "S", "T").messages[1].text, "Manuscript to grade:\n\nT");
    assert_eq!(extracted_text_status(12), "已提取文本，长度 12 字符。");
    assert_eq!(GraderFailure::TooFewResults.message(), "模型未返回足够的有效结果，请稍后重试。");
    assert_eq!(keyword_user_message("ex"), "稿件内容（前 10000 字符）：\n\nex");
}

#[test]
fn keyword_selection_inputs() {
    let names = vec![" Acoustics ".to_string(), "".to_string(), "Health".to_string()];
    let list = keywords_list(&names);
    assert_eq!(list, "Acoustics, Health");
    assert_eq!(keyword_prompt("Pick: {{KEYWORDS}}", &list), "Pick: Acoustics, Health");
    let short = "abc";
    assert_eq!(keyword_excerpt(short), "abc");
    let long = "a".repeat(10005);
    assert_eq!(keyword_excerpt(&long).len(), 10000);
    let wide = "声".repeat(10002);
    assert_eq!(keyword_excerpt(&wide).chars().count(), 10000);
}

#[test]
fn keywords_are_normalized() {
    let (main, peripheral) = normalize_keywords(
        Some("  Soundscape ".to_string()),
        &vec![
            "soundscape".to_string(),
            " Health ".to_string(),
            "HEALTH".to_string(),
            " ".to_string(),
            "Noise".to_string(),
        ],
    );
    assert_eq!(main.as_deref(), Some("Soundscape"));
    assert_eq!(peripheral, vec!["Health".to_string(), "Noise".to_string()]);
    let (main, _) = normalize_keywords(Some("   ".to_string()), &Vec::new());
    assert!(main.is_none());
    assert!(eq_ignore_ascii_case("DocX", "docx"));
    assert!(is_docx_file("paper.DOCX"));
    assert!(!is_docx_file("docx.pdf"));
}

#[test]
fn reviewer_form_checks() {
    assert_eq!(parse_language(None), Ok(ReviewLanguage::English));
    assert_eq!(parse_language(Some("chinese")), Ok(ReviewLanguage::Chinese));
    assert_eq!(parse_language(Some("Chinese")), Err(ReviewSubmissionError::InvalidLanguage));
    assert_eq!(manuscript_kind("a.PDF"), Ok(ManuscriptKind::Pdf));
    assert_eq!(manuscript_kind("a.b.docx"), Ok(ManuscriptKind::Docx));
    assert_eq!(manuscript_kind("a.txt"), Err(ReviewSubmissionError::UnsupportedFile));
    assert_eq!(ReviewSubmissionError::UnsupportedFile.message(), "Only PDF and DOCX files are accepted");
}

#[test]
fn reviewer_rounds() {
    assert_eq!(round1_quorum(5), Ok("Round 1 completed: 5/8 reviews succeeded".to_string()));
    assert_eq!(round1_quorum(3), Err("Round 1 failed: only 3 out of 8 reviews succeeded (minimum 4)".to_string()));
    let combined = combine_reviews(&vec![(0, "A".to_string()), (2, "C".to_string())]);
    assert_eq!(combined, "=== Review 1 ===\n\nA\n\n\n=== Review 3 ===\n\nC\n\n");
    assert_eq!(round2_full_prompt("P", "R"), "P\n\nR");
    assert_eq!(round3_full_prompt("P", "R"), "P\n\n=== Review Report ===\n\nR");
    assert_eq!(round1_file_name(0), "round1_review_1.docx");
    let req = review_request("m", "P", vec![7]);
    assert_eq!(req.attachments[0].filename, "manuscript.pdf");
    assert_eq!(req.messages.len(), 1);
}

#[test]
fn review_overview_sorts_rounds() {
    let doc = |round: i32, idx: Option<i32>, path: Option<&str>, completed: bool| ReviewDocument {
        round,
        review_index: idx,
        model_name: format!("m{round}"),
        file_path: path.map(|p| p.to_string()),
        completed,
    };
    let docs = vec![
        doc(1, Some(0), Some("a"), true),
        doc(1, Some(1), None, true),
        doc(2, None, Some("b"), true),
        doc(3, None, Some(""), true),
    ];
    let o = review_overview(7, &docs);
    assert_eq!(o.round1.len(), 2);
    assert_eq!(o.round1[0].download_url.as_deref(), Some("/api/referee/jobs/7/round/1/review/0/download"));
    assert!(!o.round1[1].available);
    assert_eq!(o.round2.as_ref().unwrap().download_url.as_deref(), Some("/api/referee/jobs/7/round/2/review/0/download"));
    assert!(!o.round3.as_ref().unwrap().available);
}

#[test]
fn journal_forms() {
    assert_eq!(read_topic_form("  ", None), Err(JournalFormError::TopicMissingName));
    assert_eq!(read_topic_form(" Noise ", Some("  ")), Ok(("Noise".to_string(), None)));
    assert_eq!(
        read_journal_fields("J", Some(" A "), None),
        Ok(("J".to_string(), Some("A".to_string()), None))
    );
    let key = format!("score_{TOPIC}");
    let fields = vec![
        (key.clone(), " 2 ".to_string()),
        ("score_notauuid".to_string(), "9".to_string()),
        ("other".to_string(), "x".to_string()),
    ];
    let scores = read_topic_scores(&fields).unwrap();
    assert_eq!(scores, vec![(TOPIC.to_string(), 2)]);
    let zero = vec![(key.clone(), "0".to_string())];
    assert!(read_topic_scores(&zero).unwrap().is_empty());
    let bad = vec![(key, "3".to_string())];
    assert!(read_topic_scores(&bad).is_err());
    assert_eq!(JournalFormError::JournalInvalidScore.code(), "journal_invalid_score");
}

#[test]
fn usage_group_form() {
    let form = |pairs: &[(&str, &str)]| -> Vec<(String, String)> {
        pairs.iter().map(|(k, v)| (k.to_string(), v.to_string())).collect()
    };
    let draft = read_usage_group_form(&form(&[("name", " Lab "), ("tokens_grader", "100"), ("units_summarizer", "")]))
        .ok()
        .unwrap();
    assert_eq!(draft.name, "Lab");
    assert!(draft.group_id.is_none());
    assert_eq!(draft.allocations.len(), 3);
    assert_eq!(draft.allocations[2], ("grader".to_string(), Some(100), None));
    let stored = limits_to_store(&draft.allocations);
    assert_eq!(stored, vec![("grader".to_string(), Some(100), None)]);
    assert_eq!(read_usage_group_form(&form(&[("name", " ")])).err(), Some(GroupFormError::NameMissing));
    assert_eq!(
        read_usage_group_form(&form(&[("name", "x"), ("group_id", "zz")])).err(),
        Some(GroupFormError::InvalidId)
    );
    assert_eq!(
        read_usage_group_form(&form(&[("name", "x"), ("units_grader", "-2")])).err(),
        Some(GroupFormError::InvalidLimit)
    );
}

#[test]
fn repeated_form_fields_count_with_their_last_value() {
    let form = |pairs: &[(&str, &str)]| -> Vec<(String, String)> {
        pairs.iter().map(|(k, v)| (k.to_string(), v.to_string())).collect()
    };
    let draft = read_usage_group_form(&form(&[("name", "First"), ("tokens_grader", "x"), ("name", "Second"), ("tokens_grader", "5")]))
        .ok()
        .unwrap();
    assert_eq!(draft.name, "Second");
    assert_eq!(draft.allocations[2], ("grader".to_string(), Some(5), None));
    let key = format!("score_{TOPIC}");
    let scores = read_topic_scores(&vec![(key.clone(), "7".to_string()), (key.clone(), "1".to_string())]).unwrap();
    assert_eq!(scores, vec![(TOPIC.to_string(), 1)]);
    assert!(read_topic_scores(&vec![(key.clone(), "2".to_string()), (key, "9".to_string())]).is_err());
}

#[test]
fn dashboard_pieces() {
    let groups = vec![("g1".to_string(), "A&B".to_string()), ("g2".to_string(), "C".to_string())];
    assert_eq!(
        render_group_options(&groups, Some(0)),
        "<option value=\"g1\" selected>A&amp;B</option><option value=\"g2\">C</option>"
    );
    assert_eq!(usage_text(3, Some(10), "文档数量"), "3/10 文档数量");
    assert_eq!(usage_text(3, None, "令牌"), "3 令牌");
    assert_eq!(usage_summary(4, "5 令牌"), "4 项 · 5 令牌");
    assert_eq!(role_label(true), "管理员");
    assert_eq!(limit_value_attr(Some(5)), " value=\"5\"");
    assert_eq!(limit_value_attr(None), "");
}

#[test]
fn only_pending_grader_jobs_run_and_tokens_must_fit() {
    assert!(should_process_job("pending"));
    assert!(!should_process_job("processing"));
    assert!(!should_process_job("Pending"));
    let mut progress = GradingProgress::new();
    assert!(progress.tokens_fit(None));
    assert!(progress.tokens_fit(Some(100)));
    assert!(!progress.tokens_fit(Some(usize::MAX)));
    progress.record_attempt(Some(i64::MAX as usize), true);
    assert!(!progress.tokens_fit(Some(1)));
    assert!(progress.tokens_fit(Some(0)));
}
