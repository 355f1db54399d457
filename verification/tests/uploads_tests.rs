use ai_toolkit::naming::{unique_name, FileNaming};
use ai_toolkit::paths::split_name;
use ai_toolkit::uploads::{FileFieldConfig, UploadForm};

#[test]
fn naming_preserve_original() {
    let naming = FileNaming::PreserveOriginal;
    assert_eq!(naming.build_name(0, "sample.pdf"), "sample.pdf".to_string());
}

#[test]
fn naming_prefix_only() {
    let naming = FileNaming::PrefixOnly { prefix: "source_" };
    assert_eq!(naming.build_name(0, "doc.txt"), "source_doc.txt".to_string());
}

#[test]
fn naming_indexed() {
    let naming = FileNaming::Indexed { prefix: "file_", pad_width: 3 };
    assert_eq!(naming.build_name(5, "upload.txt"), "file_005_upload.txt");
}

#[test]
fn unique_name_appends_counter() {
    let mut used = Vec::new();
    let first = unique_name("file.pdf".to_string(), &mut used);
    let second = unique_name("file.pdf".to_string(), &mut used);
    assert_eq!(first, "file.pdf");
    assert_eq!(second, "file_1.pdf");
}

#[test]
fn split_name_handles_extension() {
    let (stem, ext) = split_name("report.final.docx");
    assert_eq!(stem, "report.final");
    assert_eq!(ext, "docx");
}

#[test]
fn unique_name_skips_taken_alternatives() {
    let mut used = vec!["a.txt".to_string(), "a_1.txt".to_string()];
    assert_eq!(unique_name("a.txt".to_string(), &mut used), "a_2.txt");
    assert_eq!(unique_name("b".to_string(), &mut used), "b");
    assert_eq!(unique_name("b".to_string(), &mut used), "b_1");
    assert_eq!(used.len(), 5);
}

#[test]
fn unique_name_numbers_dot_files_and_paths_by_their_split() {
    let mut used = vec![".env".to_string(), "dir/x.txt".to_string()];
    assert_eq!(unique_name(".env".to_string(), &mut used), ".env_1");
    assert_eq!(unique_name("dir/x.txt".to_string(), &mut used), "x_1.txt");
    assert_eq!(used.len(), 4);
}

#[test]
fn upload_form_accepts_planned_files() {
    let exts = ["pdf", "docx", "txt"];
    let configs = [FileFieldConfig::new("files", &exts, 2, FileNaming::Indexed { prefix: "source_", pad_width: 3 })];
    let mut form = UploadForm::new(&configs).ok().unwrap();
    let stored = form.begin_file("files", Some("Paper One.PDF")).unwrap();
    assert!(stored.starts_with("source_000_"));
    form.record_file(format!("dir/{stored}"), 10);
    form.add_text("translate".to_string(), "on".to_string());
    let outcome = form.finish().ok().unwrap();
    assert_eq!(outcome.files.len(), 1);
    assert_eq!(outcome.files[0].original_name, "Paper One.PDF");
    assert_eq!(outcome.first_text("translate"), Some("on"));
    assert_eq!(outcome.files_for("files").len(), 1);
    assert!(outcome.first_file_for("other").is_none());
}

#[test]
fn upload_form_refuses_bad_files() {
    let exts = ["pdf"];
    let configs = [FileFieldConfig::new("file", &exts, 1, FileNaming::PrefixOnly { prefix: "m_" })];
    let mut form = UploadForm::new(&configs).ok().unwrap();
    let err = form.begin_file("file", Some("notes.txt")).unwrap_err();
    assert_eq!(err.message(), "字段 `file` 不支持 `txt` 文件类型");
    let err = form.begin_file("other", Some("a.pdf")).unwrap_err();
    assert_eq!(err.message(), "不支持的文件字段: `other`");
    let err = form.finish().err().unwrap();
    assert_eq!(err.message(), "字段 `file` 至少需要上传 1 个文件");
}

#[test]
fn upload_form_caps_file_count() {
    let exts = ["pdf"];
    let configs = [FileFieldConfig::new("file", &exts, 1, FileNaming::PreserveOriginal)];
    let mut form = UploadForm::new(&configs).ok().unwrap();
    let stored = form.begin_file("file", Some("a.pdf")).unwrap();
    form.record_file(stored, 1);
    let err = form.begin_file("file", Some("b.pdf")).unwrap_err();
    assert_eq!(err.message(), "字段 `file` 上传文件数量超过限制 (最多 1)");
}

#[test]
fn invalid_configs_are_refused() {
    let exts = ["pdf"];
    let configs = [FileFieldConfig::new("file", &exts, 0, FileNaming::PreserveOriginal)];
    let err = UploadForm::new(&configs).err().unwrap();
    assert_eq!(err.message(), "字段 `file` 的 max_files 必须大于 0");
    let configs = [FileFieldConfig::new("file", &exts, 1, FileNaming::PreserveOriginal).with_min_files(2)];
    let err = UploadForm::new(&configs).err().unwrap();
    assert_eq!(err.message(), "字段 `file` 的 min_files 不能大于 max_files");
}
