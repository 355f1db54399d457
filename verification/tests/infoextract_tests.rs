use ai_toolkit::infoextract::ExtractUpload;
use ai_toolkit::infoextract::{
    build_user_prompt, cell_to_string, clamp_document_text, extraction_request, fields_from_columns,
    finish_extraction_job, is_xlsx_name, paper_file_name, retry_delay_ms,
    split_semicolon, ensure_status_detail, CellValue, ColumnCells, ExtractUploadRefusal, ExtractionField, SpecError,
};
use ai_toolkit::infoextract::{
    extract_object_from_response, parse_extraction_spec, ExtractionAttempts, NOT_A_JSON_OBJECT,
};
use rust_xlsxwriter::Workbook;
use ai_toolkit::status::JobStatus;

fn text(s: &str) -> Option<CellValue> {
    Some(CellValue::Text(s.to_string()))
}

fn column(
    header: Option<CellValue>,
    description: Option<CellValue>,
    examples: Option<CellValue>,
    allowed: Option<CellValue>,
) -> ColumnCells {
    ColumnCells { header, description, examples, allowed }
}

#[test]
fn parse_spec_succeeds_with_examples() {
    let mut workbook = Workbook::new();
    let worksheet = workbook.add_worksheet();
    worksheet.write_string(0, 0, "Location").unwrap();
    worksheet.write_string(1, 0, "城市或国家名称").unwrap();
    worksheet.write_string(2, 0, "上海; 北京").unwrap();
    worksheet.write_string(0, 1, "Sample Size").unwrap();
    worksheet.write_string(3, 1, "100; 250; 1000").unwrap();
    let bytes = workbook.save_to_buffer().unwrap();
    let fields = parse_extraction_spec(&bytes).ok().unwrap();
    assert_eq!(fields.len(), 2);
    assert_eq!(fields[0].name, "Location");
    assert_eq!(fields[0].examples, vec!["上海", "北京"]);
    assert_eq!(fields[1].allowed_values, vec!["100", "250", "1000"]);
}

#[test]
fn parse_spec_rejects_empty_definition() {
    let mut workbook = Workbook::new();
    let worksheet = workbook.add_worksheet();
    worksheet.write_string(0, 0, "Location").unwrap();
    let bytes = workbook.save_to_buffer().unwrap();
    let err = parse_extraction_spec(&bytes).err().unwrap();
    assert!(err.message().contains("至少需要填写"));
}

#[test]
fn extract_object_handles_wrapped_text() {
    let payload = "生成如下：\n```json\n{\n  \"Location\": \"Shanghai\",\n  \"Sample Size\": 120\n}\n```";
    let map = extract_object_from_response(payload).unwrap();
    assert_eq!(map.get("Location").unwrap(), &serde_json::Value::String("Shanghai".into()));
}

#[test]
fn spreadsheet_columns_and_refusals() {
    assert_eq!(parse_extraction_spec(b"not a workbook").err(), Some(SpecError::Unreadable));
    let mut workbook = Workbook::new();
    let worksheet = workbook.add_worksheet();
    worksheet.write_number(0, 0, 3.0).unwrap();
    worksheet.write_string(1, 0, "  third  ").unwrap();
    worksheet.write_string(0, 1, "Flag").unwrap();
    worksheet.write_boolean(1, 1, true).unwrap();
    let bytes = workbook.save_to_buffer().unwrap();
    let fields = parse_extraction_spec(&bytes).ok().unwrap();
    assert_eq!(fields.len(), 2);
    assert_eq!(fields[0].name, "3");
    assert_eq!(fields[0].description.as_deref(), Some("third"));
    assert_eq!(fields[1].description.as_deref(), Some("true"));
}

#[test]
fn json_objects_are_looked_for_whole_then_braced() {
    assert!(extract_object_from_response("  {\"a\": 1}  ").is_some());
    assert!(extract_object_from_response("[1, 2]").is_none());
    assert!(extract_object_from_response("note {\"a\": [1]} end").is_some());
    assert!(extract_object_from_response("} nothing {").is_none());
    assert!(extract_object_from_response("{broken}").is_none());
}

#[test]
fn extraction_attempts_stop_after_a_parsed_reply_or_the_last_try() {
    let mut tries = ExtractionAttempts::new();
    assert!(tries.next_call());
    assert_eq!(tries.record_failure("timeout".to_string()), Some(1500));
    assert_eq!(tries.last_error.as_deref(), Some("timeout"));
    assert!(tries.next_call());
    assert_eq!(tries.record_reply("no object".to_string(), 10), Some(3000));
    assert_eq!(tries.last_error.as_deref(), Some(NOT_A_JSON_OBJECT));
    assert!(tries.next_call());
    assert_eq!(tries.record_reply("{\"k\": 1}".to_string(), u64::MAX), None);
    assert!(tries.parsed.is_some() && tries.last_error.is_none());
    assert_eq!(tries.tokens, i64::MAX);
    assert!(!tries.next_call());
    assert_eq!(tries.attempts, 3);
    let mut failing = ExtractionAttempts::new();
    for _ in 0..3 {
        assert!(failing.next_call());
        failing.record_failure("down".to_string());
    }
    assert!(!failing.next_call());
    assert_eq!(failing.attempts, 3);
}

#[test]
fn spec_column_errors_name_the_column() {
    let columns = vec![
        column(None, text("ignored"), None, None),
        column(text("A"), None, text("x"), text("y")),
    ];
    let err = fields_from_columns(&columns).err().unwrap();
    assert_eq!(err, SpecError::ExamplesAndAllowed(2));
    assert_eq!(err.message(), "第 2 列的示例与枚举不能同时填写，请二选一。");
    let err = fields_from_columns(&vec![column(Some(CellValue::Empty), None, None, None)]).err().unwrap();
    assert_eq!(err, SpecError::NoFields);
}

#[test]
fn cells_read_as_text() {
    assert_eq!(cell_to_string(Some(&CellValue::Float("3.0".to_string()))), Some("3".to_string()));
    assert_eq!(cell_to_string(Some(&CellValue::Float("2.5".to_string()))), Some("2.5".to_string()));
    assert_eq!(cell_to_string(Some(&CellValue::Int(-4))), Some("-4".to_string()));
    assert_eq!(cell_to_string(Some(&CellValue::Bool(true))), Some("true".to_string()));
    assert_eq!(cell_to_string(Some(&CellValue::Text("  ".to_string()))), None);
    assert_eq!(cell_to_string(None), None);
}

#[test]
fn semicolon_lists() {
    assert_eq!(split_semicolon(" a ;; b;"), vec!["a".to_string(), "b".to_string()]);
    assert!(split_semicolon("  ").is_empty());
}

#[test]
fn long_texts_are_clamped() {
    let long = "字".repeat(20001);
    let (clipped, truncated) = clamp_document_text(&long);
    assert!(truncated);
    assert_eq!(clipped.chars().count(), 20000);
    let (same, truncated) = clamp_document_text("short");
    assert!(!truncated);
    assert_eq!(same, "short");
    assert_eq!(ensure_status_detail(true).as_deref(), Some("正文超过 20000 字符，已截断后送入模型。"));
    assert_eq!(ensure_status_detail(false), None);
}

#[test]
fn user_prompt_lists_fields() {
    let fields = vec![ExtractionField {
        name: "Location".to_string(),
        description: Some("城市".to_string()),
        examples: vec!["上海".to_string(), "北京".to_string()],
        allowed_values: Vec::new(),
    }];
    let prompt = build_user_prompt("a.pdf", &fields, "  JSON only ", "BODY", true);
    assert_eq!(
        prompt,
        "文件名：a.pdf\n\n请根据以下字段定义从论文中提取信息：\n1. Location\n   说明：城市\n   示例：上海；北京\n\n输出要求：\nJSON only\n\n注意：正文已截断至前 20000 个字符，请结合上下文谨慎推理。\n\n以下为论文正文内容：\n\nBODY"
    );
}

#[test]
fn extraction_requests() {
    let req = extraction_request("m", "  ", "U".to_string());
    assert_eq!(req.messages.len(), 1);
    let req = extraction_request("m", " S ", "U".to_string());
    assert_eq!(req.messages.len(), 2);
    assert_eq!(req.messages[0].text, "S");
    assert_eq!(retry_delay_ms(2), Some(3000));
    assert_eq!(retry_delay_ms(3), None);
}

#[test]
fn upload_names_and_summary() {
    assert_eq!(paper_file_name(7, "x.pdf"), "paper_007_x.pdf");
    assert!(is_xlsx_name("Spec.XLSX"));
    assert!(!is_xlsx_name("spec.xls"));
    assert_eq!(ExtractUploadRefusal::TooManyDocuments.message(), "单次任务最多 100 篇 PDF。");
    let (status, detail, error) = finish_extraction_job(3, 3, true);
    assert_eq!(status, JobStatus::Completed);
    assert_eq!(detail, "3 篇文献已全部提取完成。");
    assert!(error.is_none());
    let (_, detail, _) = finish_extraction_job(3, 2, true);
    assert_eq!(detail, "2 篇成功，1 篇失败。");
    let (status, detail, error) = finish_extraction_job(3, 2, false);
    assert_eq!(status, JobStatus::Failed);
    assert_eq!(detail, "部分文献完成，但结果文件生成失败。");
    assert!(error.is_some());
    let (status, detail, _) = finish_extraction_job(0, 0, false);
    assert_eq!(status, JobStatus::Failed);
    assert_eq!(detail, "任务执行失败，未能处理任何文献。");
}

#[test]
fn extraction_uploads_are_checked_in_order() {
    let mut upload = ExtractUpload::new();
    assert_eq!(upload.clone().finish(), Err(ExtractUploadRefusal::NoDocuments));
    assert_eq!(upload.accept_document("notes.txt"), Err(ExtractUploadRefusal::NotPdf));
    assert_eq!(upload.accept_document("a:b?.PDF"), Ok("paper_000_ab.PDF".to_string()));
    assert_eq!(upload.accept_document("c.pdf"), Ok("paper_001_c.pdf".to_string()));
    assert_eq!(upload.clone().finish(), Err(ExtractUploadRefusal::NoSpec));
    assert_eq!(upload.accept_spec(Some("fields.xls")), Err(ExtractUploadRefusal::SpecNotXlsx));
    assert_eq!(upload.accept_spec(None), Ok("spec.xlsx".to_string()));
    assert_eq!(upload.accept_spec(Some("x.xlsx")), Err(ExtractUploadRefusal::SecondSpec));
    assert_eq!(
        upload.finish(),
        Ok((vec!["paper_000_ab.PDF".to_string(), "paper_001_c.pdf".to_string()], "spec.xlsx".to_string()))
    );
    let mut many = ExtractUpload::new();
    for i in 0..101 {
        many.accept_document(&format!("p{i}.pdf")).unwrap();
    }
    many.accept_spec(Some("S<1>.XLSX")).unwrap();
    assert_eq!(many.spec_name.as_deref(), Some("S1.XLSX"));
    assert_eq!(many.finish(), Err(ExtractUploadRefusal::TooManyDocuments));
}
