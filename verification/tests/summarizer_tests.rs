use ai_toolkit::docx::{docx_paragraphs_from_xml, docx_text_from_xml};
use ai_toolkit::glossary::GlossaryTerm;
use ai_toolkit::status::JobStatus;
use ai_toolkit::summarizer::{
    build_summary_request, build_translation_prompt, build_translation_request, combined_download_url,
    combined_output_name, document_prompt, finish_job, format_heading, parse_translate_flag, retry_delay_ms,
    sanitize_for_output, select_combined_download, summarized_document, translating_status,
    translation_enabled_text, unreadable_document, CombinedDownloadRefusal, DocumentKind, JobTally,
    TranslationReply,
};

#[test]
fn generates_translation_prompt_with_terms() {
    let terms = vec![GlossaryTerm { source_term: "neuron".to_string(), target_term: "神经元".to_string() }];
    let prompt = build_translation_prompt("Use glossary terms:\n{{GLOSSARY}}\nPreserve citations.", &terms);
    assert!(prompt.contains("EN: neuron"));
    assert!(prompt.contains("CN: 神经元"));
    assert!(prompt.contains("Use glossary terms"));
}

#[test]
fn extract_docx_text_returns_plain_text() {
    let xml = r#"<?xml version="1.0" encoding="UTF-8"?>
<w:document xmlns:w="http://schemas.openxmlformats.org/wordprocessingml/2006/main">
  <w:body>
    <w:p><w:r><w:t>Hello</w:t></w:r></w:p>
    <w:p><w:r><w:t>World</w:t></w:r></w:p>
  </w:body>
</w:document>"#;
    let extracted = docx_text_from_xml(xml).ok().unwrap();
    assert_eq!(extracted, "Hello\n\nWorld");
}

#[test]
fn docx_paragraphs_keep_tabs_and_breaks() {
    let xml = "<w:body><w:p><w:r><w:t>a</w:t><w:tab/><w:t>b &amp; c</w:t></w:r></w:p><w:p/><w:p><w:r><w:t>d</w:t><w:br/></w:r></w:p></w:body>";
    let paragraphs = docx_paragraphs_from_xml(xml).ok().unwrap();
    assert_eq!(paragraphs[0], "a\tb & c");
    assert!(paragraphs.contains(&"d".to_string()));
}

#[test]
fn only_text_inside_w_t_is_unescaped() {
    let outside = "<w:body><w:p><w:r><w:t>x &lt; y</w:t></w:r>&bogus;</w:p></w:body>";
    assert_eq!(docx_text_from_xml(outside).ok().unwrap(), "x < y");
    assert_eq!(docx_paragraphs_from_xml(outside).ok().unwrap(), vec!["x < y".to_string()]);
    let inside = "<w:body><w:p><w:r><w:t>&bogus;</w:t></w:r></w:p></w:body>";
    assert!(docx_text_from_xml(inside).is_err());
    assert!(docx_paragraphs_from_xml(inside).is_err());
}

#[test]
fn prompt_without_placeholder_appends_glossary() {
    let prompt = build_translation_prompt("Translate carefully.  \n", &Vec::new());
    assert_eq!(prompt, "Translate carefully.\n- (no glossary terms configured)");
    let terms = vec![GlossaryTerm { source_term: " a ".to_string(), target_term: "甲 ".to_string() }];
    assert_eq!(build_translation_prompt("{{GLOSSARY}}", &terms), "- EN: a -> CN: 甲");
}

#[test]
fn document_kinds_and_flags() {
    assert_eq!(DocumentKind::from_str("OTHER"), DocumentKind::OtherDocument);
    assert_eq!(DocumentKind::from_str("research"), DocumentKind::ResearchArticle);
    assert_eq!(DocumentKind::from_str(DocumentKind::OtherDocument.as_str()), DocumentKind::OtherDocument);
    assert_eq!(document_prompt("R", "G", DocumentKind::OtherDocument), "G");
    assert!(parse_translate_flag(" yes "));
    assert!(!parse_translate_flag("no"));
    assert_eq!(translation_enabled_text(false), "disabled");
}

#[test]
fn requests_and_names() {
    let req = build_summary_request("poe/m", "P", "text");
    assert_eq!(req.messages[1].text, "text");
    let req = build_translation_request("poe/m", "SYS".to_string(), "sum");
    assert_eq!(
        req.messages[1].text,
        "Translate the following text to Chinese while adhering to the glossary:\n\nsum"
    );
    assert_eq!(format_heading(0, "a.pdf"), "Document 1 — a.pdf");
    assert_eq!(combined_output_name("summary"), "combined_summary.txt");
    assert_eq!(combined_download_url("j1", "translation"), "/api/summarizer/jobs/j1/combined/translation");
    assert_eq!(translating_status("a.pdf", true), "Translating a.pdf (glossary enabled)");
    assert_eq!(sanitize_for_output("paper.final.pdf", "combined-summary"), "paper.final_combined-summary.txt");
    assert_eq!(sanitize_for_output(".pdf", "x"), ".pdf_x.txt");
}

#[test]
fn retry_schedule_doubles() {
    assert_eq!(retry_delay_ms(1), Some(1000));
    assert_eq!(retry_delay_ms(2), Some(2000));
    assert_eq!(retry_delay_ms(3), None);
    assert_eq!(retry_delay_ms(0), None);
}

#[test]
fn document_results() {
    let r = unreadable_document("boom".to_string());
    assert!(!r.success);
    assert_eq!(r.status_detail.as_deref(), Some("Unable to extract text from the document."));
    let r = summarized_document("  S  ", 7, TranslationReply::Translated(" T ".to_string(), 3));
    assert_eq!(r.summary_text.as_deref(), Some("S"));
    assert_eq!(r.translation_text.as_deref(), Some("T"));
    assert_eq!(r.translation_tokens, 3);
    let r = summarized_document("S", 7, TranslationReply::Failed("down".to_string()));
    assert!(r.success);
    assert_eq!(r.status_detail.as_deref(), Some("Translation failed; summary available."));
    assert_eq!(r.error_message.as_deref(), Some("down"));
}

#[test]
fn job_tally_and_outcome() {
    let mut tally = JobTally::new();
    tally.record(10, 5);
    tally.record(1, 0);
    assert_eq!(tally.success_count, 2);
    assert_eq!(tally.usage_tokens(), 16);
    let (status, detail) = finish_job(tally.success_count);
    assert_eq!(status, JobStatus::Completed);
    assert_eq!(detail, "Completed with 2 successful documents");
    let (status, detail) = finish_job(0);
    assert_eq!(status, JobStatus::Failed);
    assert_eq!(detail, "Job finished but no documents were successfully processed");
}

#[test]
fn combined_download_selection() {
    assert_eq!(
        select_combined_download("summary", true, Some("p".to_string()), None),
        Err(CombinedDownloadRefusal::Purged)
    );
    assert_eq!(
        select_combined_download("summary", false, Some("p".to_string()), None),
        Ok(("p".to_string(), "combined-summary"))
    );
    assert_eq!(
        select_combined_download("translation", false, Some("p".to_string()), None),
        Err(CombinedDownloadRefusal::TranslationMissing)
    );
    assert_eq!(
        select_combined_download("zip", false, None, None).unwrap_err().message(),
        "未知的下载类型。"
    );
}
