use ai_toolkit::chunking::{
    apply_chunk_translation, calculate_equivalent_words, plan_translation_chunks, TranslationChunk,
    PARAGRAPH_SEPARATOR,
};
use ai_toolkit::glossary::GlossaryTerm;
use ai_toolkit::llm::MessageRole;
use ai_toolkit::status::JobStatus;
use ai_toolkit::translatedocx::{
    accept_docx_upload, build_translation_prompt, build_translation_request, chunk_status, finish_job,
    reading_status, translated_file_name, DocumentFailure, DocumentTranslation, DocxUploadRefusal,
    TranslationDirection,
};

fn neuron() -> Vec<GlossaryTerm> {
    vec![GlossaryTerm { source_term: "neuron".to_string(), target_term: "神经元".to_string() }]
}

#[test]
fn glossary_prompt_includes_terms() {
    let template = "Use glossary:\n{{GLOSSARY}}\nKeep marker {{PARAGRAPH_SEPARATOR}}";
    let terms = neuron();

    let prompt_en = build_translation_prompt(template, template, &terms, TranslationDirection::EnToCn);
    assert!(prompt_en.contains("EN: neuron -> CN: 神经元"));
    assert!(prompt_en.contains(PARAGRAPH_SEPARATOR));

    let prompt_cn = build_translation_prompt(template, template, &terms, TranslationDirection::CnToEn);
    assert!(prompt_cn.contains("CN: 神经元 -> EN: neuron"));
    assert!(prompt_cn.contains(PARAGRAPH_SEPARATOR));
}

#[test]
fn plan_chunks_splits_long_documents() {
    let paragraphs = vec!["Paragraph".repeat(10); 30];
    let chunks = plan_translation_chunks(&paragraphs);
    assert!(!chunks.is_empty());
    assert!(chunks.iter().all(|chunk| !chunk.paragraph_indices.is_empty()));
}

#[test]
fn apply_chunk_translation_matches_segments() {
    let mut paragraphs = vec!["A".to_string(), "B".to_string()];
    let chunk = TranslationChunk { id: 0, paragraph_indices: vec![0, 1], source_text: "A".to_string() };
    let result = apply_chunk_translation(&mut paragraphs, &chunk, "一[[__PARAGRAPH_BREAK__]]二");
    assert!(result.is_ok());
    assert_eq!(paragraphs[0], "一");
    assert_eq!(paragraphs[1], "二");
}

#[test]
fn prompt_without_glossary_says_so() {
    let prompt = build_translation_prompt("G: {{GLOSSARY}}", "x", &Vec::new(), TranslationDirection::EnToCn);
    assert_eq!(prompt, "G: No glossary entries configured.");
}

#[test]
fn prompt_uses_direction_template_and_replaces_every_placeholder() {
    let terms = vec![
        GlossaryTerm { source_term: "a".to_string(), target_term: "甲".to_string() },
        GlossaryTerm { source_term: "b".to_string(), target_term: "乙".to_string() },
    ];
    let prompt = build_translation_prompt(
        "EN {{GLOSSARY}}",
        "{{PARAGRAPH_SEPARATOR}}|{{GLOSSARY}}|{{PARAGRAPH_SEPARATOR}}",
        &terms,
        TranslationDirection::CnToEn,
    );
    assert_eq!(
        prompt,
        "[[__PARAGRAPH_BREAK__]]|CN: 甲 -> EN: a\nCN: 乙 -> EN: b|[[__PARAGRAPH_BREAK__]]"
    );
}

#[test]
fn direction_values_round_trip() {
    assert_eq!(TranslationDirection::from_form_value("cn_to_en"), TranslationDirection::CnToEn);
    assert_eq!(TranslationDirection::from_form_value("anything"), TranslationDirection::EnToCn);
    for d in [TranslationDirection::EnToCn, TranslationDirection::CnToEn] {
        assert_eq!(TranslationDirection::from_db_value(d.as_db_value()), d);
    }
    assert_eq!(TranslationDirection::CnToEn.display_label(), "中文 → 英文");
}

#[test]
fn request_carries_prompt_and_instruction() {
    let req = build_translation_request("openrouter/m", "SYS".to_string(), "p1", TranslationDirection::EnToCn);
    assert_eq!(req.model, "openrouter/m");
    assert_eq!(req.messages.len(), 2);
    assert_eq!(req.messages[0].role, MessageRole::System);
    assert_eq!(req.messages[0].text, "SYS");
    assert_eq!(req.messages[1].role, MessageRole::User);
    assert_eq!(
        req.messages[1].text,
        "Translate the following EN paragraphs into CN while preserving the separator [[__PARAGRAPH_BREAK__]]:\n\np1"
    );
    assert!(req.attachments.is_empty());
}

#[test]
fn equivalent_words_count_cjk_as_seven_tenths() {
    assert_eq!(calculate_equivalent_words("hello world"), 20);
    assert_eq!(calculate_equivalent_words("神经元 cell"), 31);
    assert_eq!(calculate_equivalent_words("   "), 0);
}

#[test]
fn blank_paragraphs_end_chunks_and_are_skipped() {
    let paragraphs = vec!["one".to_string(), "  ".to_string(), "two".to_string(), "three".to_string()];
    let chunks = plan_translation_chunks(&paragraphs);
    assert_eq!(chunks.len(), 2);
    assert_eq!(chunks[0].paragraph_indices, vec![0]);
    assert_eq!(chunks[1].id, 1);
    assert_eq!(chunks[1].paragraph_indices, vec![2, 3]);
    assert_eq!(chunks[1].source_text, "two[[__PARAGRAPH_BREAK__]]three");
}

#[test]
fn chunks_hold_at_most_twenty_paragraphs() {
    let paragraphs = vec!["word".to_string(); 45];
    let chunks = plan_translation_chunks(&paragraphs);
    assert_eq!(chunks.len(), 3);
    assert_eq!(chunks[0].paragraph_indices.len(), 20);
    assert_eq!(chunks[2].paragraph_indices.len(), 5);
}

#[test]
fn heavy_paragraphs_get_their_own_chunk() {
    let heavy = "w ".repeat(800);
    let paragraphs = vec!["a".to_string(), heavy, "b".to_string()];
    let chunks = plan_translation_chunks(&paragraphs);
    assert_eq!(chunks.len(), 3);
    assert_eq!(chunks[1].paragraph_indices, vec![1]);
}

#[test]
fn mismatched_reply_changes_nothing() {
    let mut paragraphs = vec!["A".to_string(), "B".to_string()];
    let chunk = TranslationChunk { id: 0, paragraph_indices: vec![0, 1], source_text: String::new() };
    let err = apply_chunk_translation(&mut paragraphs, &chunk, "only one").unwrap_err();
    assert_eq!(err.returned, 1);
    assert_eq!(err.expected, 2);
    assert_eq!(err.message(), "translation returned 1 segments but 2 were expected");
    assert_eq!(paragraphs, vec!["A".to_string(), "B".to_string()]);
}

#[test]
fn echoed_chunk_restores_trimmed_paragraphs() {
    let original = vec!["  alpha ".to_string(), "beta".to_string()];
    let chunks = plan_translation_chunks(&original);
    let mut paragraphs = original.clone();
    apply_chunk_translation(&mut paragraphs, &chunks[0], &chunks[0].source_text).unwrap();
    assert_eq!(paragraphs, vec!["alpha".to_string(), "beta".to_string()]);
}

#[test]
fn echoed_chunk_with_brackets_restores_trimmed_paragraphs() {
    let original = vec![" see [1] [[".to_string(), "]] tail ".to_string(), "[[__PARAGRAPH".to_string()];
    let chunks = plan_translation_chunks(&original);
    assert_eq!(chunks.len(), 1);
    let mut paragraphs = original.clone();
    apply_chunk_translation(&mut paragraphs, &chunks[0], &chunks[0].source_text).unwrap();
    assert_eq!(
        paragraphs,
        vec!["see [1] [[".to_string(), "]] tail".to_string(), "[[__PARAGRAPH".to_string()]
    );
}

#[test]
fn document_translation_runs_chunk_by_chunk() {
    let paragraphs = vec!["one".to_string(), "".to_string(), "two".to_string()];
    let mut run = DocumentTranslation::start(paragraphs).ok().unwrap();
    assert_eq!(run.chunk_count(), 2);
    assert!(!run.is_complete());
    assert_eq!(run.pending_chunk().source_text, "one");
    run.accept_reply("  一  ", 5).unwrap();
    assert_eq!(run.pending_chunk().source_text, "two");
    assert_eq!(run.accept_reply("   ", 2), Err(DocumentFailure::EmptyReply));
    run.accept_reply("二", 3).unwrap();
    assert!(run.is_complete());
    assert_eq!(run.tokens_spent(), 10);
    assert_eq!(run.into_paragraphs(), vec!["一".to_string(), "".to_string(), "二".to_string()]);
}

#[test]
fn document_translation_refuses_empty_documents() {
    assert!(matches!(DocumentTranslation::start(Vec::new()), Err(DocumentFailure::NoContent)));
    assert!(matches!(DocumentTranslation::start(vec!["  ".to_string()]), Err(DocumentFailure::NoChunks)));
    assert_eq!(DocumentFailure::NoChunks.status_detail(), "No translation chunks generated.");
}

#[test]
fn layout_mismatch_fails_the_document() {
    let mut run = DocumentTranslation::start(vec!["a".to_string(), "b".to_string()]).ok().unwrap();
    let err = run.accept_reply("x", 1).unwrap_err();
    assert!(matches!(err, DocumentFailure::LayoutMismatch(_)));
    assert_eq!(err.status_detail(), "Translation response did not match paragraph layout.");
    assert!(!run.is_complete());
}

#[test]
fn upload_checks() {
    assert_eq!(accept_docx_upload(true, "a.docx"), Err(DocxUploadRefusal::SecondFile));
    assert_eq!(accept_docx_upload(false, "a.pdf"), Err(DocxUploadRefusal::NotDocx));
    assert_eq!(accept_docx_upload(false, "Paper.DOCX").unwrap(), "source_Paper.DOCX");
    assert_eq!(DocxUploadRefusal::NoFile.message(), "请上传一个 DOCX 文件。");
}

#[test]
fn status_texts() {
    assert_eq!(reading_status("a.docx", TranslationDirection::EnToCn), "Reading a.docx (英文 → 中文)");
    assert_eq!(
        chunk_status("a.docx", TranslationDirection::CnToEn, 0, 3),
        "Translating a.docx (中文 → 英文) chunk 1/3"
    );
    assert_eq!(translated_file_name(2), "translated_2.docx");
    let (status, detail) = finish_job(2, TranslationDirection::EnToCn);
    assert_eq!(status, JobStatus::Completed);
    assert_eq!(detail, "Completed 2 translated document(s) (英文 → 中文)");
    let (status, detail) = finish_job(0, TranslationDirection::EnToCn);
    assert_eq!(status, JobStatus::Failed);
    assert_eq!(detail, "Job finished but no documents were successfully translated");
}

#[test]
fn docx_uploads_are_sanitized_before_the_check() {
    assert_eq!(accept_docx_upload(false, "dr<af>t.docx").unwrap(), "source_draft.docx");
    assert_eq!(accept_docx_upload(false, "a/b.docx").unwrap(), "source_ab.docx");
    assert_eq!(accept_docx_upload(false, "..."), Err(DocxUploadRefusal::NotDocx));
}
