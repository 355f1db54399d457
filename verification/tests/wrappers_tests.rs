use ai_toolkit::paths::{extension_or_empty, file_stem_or};
use ai_toolkit::summarizer::sanitize_for_output;
use ai_toolkit::templates::{render_footer, render_footer_for_year};
use ai_toolkit::translatedocx::download_name;
use chrono::Datelike;

#[test]
fn sanitized_names_lose_reserved_characters() {
    assert_eq!(download_name("a:b?.docx"), "ab_translated.docx");
    assert_eq!(download_name("notes"), "notes_translated.docx");
    assert_eq!(sanitize_for_output("r<e>port.pdf", "summary"), "report_summary.txt");
    assert_eq!(sanitize_for_output("paper.pdf", "translation"), "paper_translation.txt");
}

#[test]
fn stems_and_extensions_follow_the_path() {
    assert_eq!(extension_or_empty("a.TXT"), "TXT");
    assert_eq!(extension_or_empty("archive.tar.gz"), "gz");
    assert_eq!(extension_or_empty("README"), "");
    assert_eq!(file_stem_or(".bashrc", "x"), ".bashrc");
    assert_eq!(file_stem_or("archive.tar.gz", "x"), "archive.tar");
}

#[test]
fn footer_shows_the_current_year() {
    assert_eq!(render_footer_for_year(2031), "<footer class=\"app-footer\">© 2024-2031 张圆教授课题组，仅限内部使用</footer>");
    assert_eq!(render_footer(), render_footer_for_year(chrono::Utc::now().year()));
}
