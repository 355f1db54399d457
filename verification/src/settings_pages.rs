//! The settings pages of the tool modules, shown to administrators.

use vstd::prelude::*;

use crate::admin_shared::{
    glossary_section_html, render_glossary_section, render_topic_section, topic_section_html, GlossaryTermRow,
    JournalTopicRow, MODULE_ADMIN_SHARED_STYLES,
};
use crate::admin_utils::{admin_flash, compose_flash_message};
use crate::config::{
    GraderModels, GraderPrompts, InfoExtractModels, InfoExtractPrompts, ReviewerModels, ReviewerPrompts,
    SummarizerModels, SummarizerPrompts,
};
use crate::text::{escape, escape_html, push_str, to_owned_string};

verus! {

/// Part 0 of the summarizer settings page.
pub const SUMMARIZER_SETTINGS_0: &'static str = "<!DOCTYPE html>\n<html lang=\"zh-CN\">\n<head>\n    <meta charset=\"UTF-8\">\n    <title>摘要模块设置</title>\n    <meta name=\"viewport\" content=\"width=device-width, initial-scale=1\">\n    <meta name=\"robots\" content=\"noindex,nofollow\">\n    <style>\n        :root { color-scheme: light; }\n        body { font-family: \"Helvetica Neue\", Arial, sans-serif; margin: 0; background: #f8fafc; color: #0f172a; }\n        header { background: #ffffff; padding: 2rem 1.5rem; border-bottom: 1px solid #e2e8f0; }\n        .header-bar { display: flex; justify-content: space-between; align-items: center; flex-wrap: wrap; gap: 1rem; }\n        .back-link { display: inline-flex; align-items: center; gap: 0.4rem; color: #1d4ed8; text-decoration: none; font-weight: 600; background: #e0f2fe; padding: 0.5rem 0.95rem; border-radius: 999px; border: 1px solid #bfdbfe; transition: background 0.15s ease, border 0.15s ease; }\n        .back-link:hover { background: #bfdbfe; border-color: #93c5fd; }\n        main { padding: 2rem 1.5rem; max-width: 960px; margin: 0 auto; box-sizing: border-box; }\n        .panel { background: #ffffff; border-radius: 12px; border: 1px solid #e2e8f0; padding: 1.5rem; box-shadow: 0 18px 40px rgba(15, 23, 42, 0.08); margin-bottom: 2rem; }\n        label { display: block; margin-bottom: 0.5rem; font-weight: 600; color: #0f172a; }\n        input[type=\"text\"], textarea { width: 100%; padding: 0.75rem; border-radius: 8px; border: 1px solid #cbd5f5; background: #f8fafc; color: #0f172a; box-sizing: border-box; font-family: inherit; }\n        textarea { min-height: 140px; }\n        input[type=\"text\"]:focus, textarea:focus { outline: none; border-color: #2563eb; box-shadow: 0 0 0 3px rgba(37, 99, 235, 0.12); }\n        button { padding: 0.85rem 1.2rem; border: none; border-radius: 8px; background: #2563eb; color: #ffffff; font-weight: 600; cursor: pointer; transition: background 0.15s ease; }\n        button:hover { background: #1d4ed8; }\n        .flash { padding: 1rem; border-radius: 8px; margin-bottom: 1.5rem; border: 1px solid transparent; }\n        .flash.success { background: #ecfdf3; border-color: #bbf7d0; color: #166534; }\n        .flash.error { background: #fef2f2; border-color: #fecaca; color: #b91c1c; }\n        .note { color: #475569; font-size: 0.95rem; margin-bottom: 1rem; }\n        .app-footer { margin-top: 3rem; text-align: center; font-size: 0.85rem; color: #94a3b8; }\n";
/// Part 1 of the summarizer settings page.
pub const SUMMARIZER_SETTINGS_1: &'static str = "\n    </style>\n</head>\n<body>\n    <header>\n        <div class=\"header-bar\">\n            <h1>摘要模块设置</h1>\n            <a class=\"back-link\" href=\"/tools/summarizer\">← 返回摘要工具</a>\n        </div>\n        <p>配置摘要与翻译调用的模型和提示词，术语表与 DOCX 模块共用。</p>\n    </header>\n    <main>\n        <p>当前登录：<strong>";
/// Part 2 of the summarizer settings page.
pub const SUMMARIZER_SETTINGS_2: &'static str = "</strong></p>\n        ";
/// Part 3 of the summarizer settings page.
pub const SUMMARIZER_SETTINGS_3: &'static str = "\n        <section class=\"panel\">\n            <h2>模型配置</h2>\n            <form method=\"post\" action=\"/dashboard/modules/summarizer/models\">\n                <input type=\"hidden\" name=\"redirect\" value=\"/dashboard/modules/summarizer\">\n                <label for=\"summary-model\">摘要模型</label>\n                <input id=\"summary-model\" name=\"summary_model\" type=\"text\" value=\"";
/// Part 4 of the summarizer settings page.
pub const SUMMARIZER_SETTINGS_4: &'static str = "\" required>\n                <label for=\"translation-model\">翻译模型</label>\n                <input id=\"translation-model\" name=\"translation_model\" type=\"text\" value=\"";
/// Part 5 of the summarizer settings page.
pub const SUMMARIZER_SETTINGS_5: &'static str = "\" required>\n                <button type=\"submit\">保存模型</button>\n            </form>\n        </section>\n        <section class=\"panel\">\n            <h2>提示词配置</h2>\n            <form method=\"post\" action=\"/dashboard/modules/summarizer/prompts\">\n                <input type=\"hidden\" name=\"redirect\" value=\"/dashboard/modules/summarizer\">\n                <label for=\"prompt-research\">科研论文摘要提示</label>\n                <textarea id=\"prompt-research\" name=\"research_summary\" required>";
/// Part 6 of the summarizer settings page.
pub const SUMMARIZER_SETTINGS_6: &'static str = "</textarea>\n                <label for=\"prompt-general\">其他文档摘要提示</label>\n                <textarea id=\"prompt-general\" name=\"general_summary\" required>";
/// Part 7 of the summarizer settings page.
pub const SUMMARIZER_SETTINGS_7: &'static str = "</textarea>\n                <label for=\"prompt-translation\">翻译提示（需包含 {GLOSSARY} ）</label>\n                <textarea id=\"prompt-translation\" name=\"translation\" required>";
/// Part 8 of the summarizer settings page.
pub const SUMMARIZER_SETTINGS_8: &'static str = "</textarea>\n                <button type=\"submit\">保存提示词</button>\n            </form>\n        </section>\n        ";
/// Part 9 of the summarizer settings page.
pub const SUMMARIZER_SETTINGS_9: &'static str = "\n        ";
/// Part 10 of the summarizer settings page.
pub const SUMMARIZER_SETTINGS_10: &'static str = "\n    </main>\n</body>\n</html>";

/// The summarizer settings page: the escaped administrator name, the flash box, the model and prompt forms filled with the escaped settings, the glossary editor and the footer.
pub open spec fn summarizer_settings_html(username: Seq<char>, status: Option<&str>, error: Option<&str>, models: SummarizerModels, prompts: SummarizerPrompts, terms: Seq<GlossaryTermRow>, footer: Seq<char>) -> Seq<char> {
    SUMMARIZER_SETTINGS_0@ + (MODULE_ADMIN_SHARED_STYLES@) + SUMMARIZER_SETTINGS_1@ + (escape(username)) + SUMMARIZER_SETTINGS_2@ + (admin_flash(status, error)) + SUMMARIZER_SETTINGS_3@ + (escape(models.summary_model@)) + SUMMARIZER_SETTINGS_4@ + (escape(models.translation_model@)) + SUMMARIZER_SETTINGS_5@ + (escape(prompts.research_summary@)) + SUMMARIZER_SETTINGS_6@ + (escape(prompts.general_summary@)) + SUMMARIZER_SETTINGS_7@ + (escape(prompts.translation@)) + SUMMARIZER_SETTINGS_8@ + (glossary_section_html(terms, "/dashboard/modules/summarizer"@)) + SUMMARIZER_SETTINGS_9@ + (footer) + SUMMARIZER_SETTINGS_10@
}

/// Renders the summarizer settings page.
pub fn render_summarizer_settings_page(username: &str, status: Option<&str>, error: Option<&str>, models: &SummarizerModels, prompts: &SummarizerPrompts, glossary_terms: &[GlossaryTermRow], footer: &str) -> (res: String)
    ensures
        res@ == summarizer_settings_html(username@, status, error, *models, *prompts, glossary_terms@, footer@),
{
    let mut out = to_owned_string(SUMMARIZER_SETTINGS_0);
    push_str(&mut out, MODULE_ADMIN_SHARED_STYLES);
    push_str(&mut out, SUMMARIZER_SETTINGS_1);
    let h1 = escape_html(username);
    push_str(&mut out, h1.as_str());
    push_str(&mut out, SUMMARIZER_SETTINGS_2);
    let h2 = compose_flash_message(status, error);
    push_str(&mut out, h2.as_str());
    push_str(&mut out, SUMMARIZER_SETTINGS_3);
    let h3 = escape_html(models.summary_model.as_str());
    push_str(&mut out, h3.as_str());
    push_str(&mut out, SUMMARIZER_SETTINGS_4);
    let h4 = escape_html(models.translation_model.as_str());
    push_str(&mut out, h4.as_str());
    push_str(&mut out, SUMMARIZER_SETTINGS_5);
    let h5 = escape_html(prompts.research_summary.as_str());
    push_str(&mut out, h5.as_str());
    push_str(&mut out, SUMMARIZER_SETTINGS_6);
    let h6 = escape_html(prompts.general_summary.as_str());
    push_str(&mut out, h6.as_str());
    push_str(&mut out, SUMMARIZER_SETTINGS_7);
    let h7 = escape_html(prompts.translation.as_str());
    push_str(&mut out, h7.as_str());
    push_str(&mut out, SUMMARIZER_SETTINGS_8);
    let h8 = render_glossary_section(glossary_terms, "/dashboard/modules/summarizer");
    push_str(&mut out, h8.as_str());
    push_str(&mut out, SUMMARIZER_SETTINGS_9);
    push_str(&mut out, footer);
    push_str(&mut out, SUMMARIZER_SETTINGS_10);
    assert(out@ =~= summarizer_settings_html(username@, status, error, *models, *prompts, glossary_terms@, footer@));
    out
}

/// Part 0 of the grader settings page.
pub const GRADER_SETTINGS_0: &'static str = "<!DOCTYPE html>\n<html lang=\"zh-CN\">\n<head>\n    <meta charset=\"UTF-8\">\n    <title>稿件评估模块设置</title>\n    <meta name=\"viewport\" content=\"width=device-width, initial-scale=1\">\n    <meta name=\"robots\" content=\"noindex,nofollow\">\n    <style>\n        :root { color-scheme: light; }\n        body { font-family: \"Helvetica Neue\", Arial, sans-serif; margin: 0; background: #f8fafc; color: #0f172a; }\n        header { background: #ffffff; padding: 2rem 1.5rem; border-bottom: 1px solid #e2e8f0; }\n        .header-bar { display: flex; justify-content: space-between; align-items: center; flex-wrap: wrap; gap: 1rem; }\n        .back-link { display: inline-flex; align-items: center; gap: 0.4rem; color: #1d4ed8; text-decoration: none; font-weight: 600; background: #e0f2fe; padding: 0.5rem 0.95rem; border-radius: 999px; border: 1px solid #bfdbfe; transition: background 0.15s ease, border 0.15s ease; }\n        .back-link:hover { background: #bfdbfe; border-color: #93c5fd; }\n        main { padding: 2rem 1.5rem; max-width: 1100px; margin: 0 auto; box-sizing: border-box; }\n        .panel { background: #ffffff; border-radius: 12px; border: 1px solid #e2e8f0; padding: 1.5rem; box-shadow: 0 18px 40px rgba(15, 23, 42, 0.08); margin-bottom: 2rem; }\n        label { display: block; margin-bottom: 0.5rem; font-weight: 600; color: #0f172a; }\n        input[type=\"text\"], textarea { width: 100%; padding: 0.75rem; border-radius: 8px; border: 1px solid #cbd5f5; background: #f8fafc; color: #0f172a; box-sizing: border-box; font-family: inherit; }\n        textarea { min-height: 160px; }\n        input[type=\"text\"]:focus, textarea:focus { outline: none; border-color: #2563eb; box-shadow: 0 0 0 3px rgba(37, 99, 235, 0.12); }\n        button { padding: 0.85rem 1.2rem; border: none; border-radius: 8px; background: #2563eb; color: #ffffff; font-weight: 600; cursor: pointer; transition: background 0.15s ease; }\n        button:hover { background: #1d4ed8; }\n        .flash { padding: 1rem; border-radius: 8px; margin-bottom: 1.5rem; border: 1px solid transparent; }\n        .flash.success { background: #ecfdf3; border-color: #bbf7d0; color: #166534; }\n        .flash.error { background: #fef2f2; border-color: #fecaca; color: #b91c1c; }\n        table { width: 100%; border-collapse: collapse; margin-top: 1.5rem; background: #ffffff; border: 1px solid #e2e8f0; border-radius: 12px; overflow: hidden; }\n        th, td { padding: 0.75rem 1rem; border-bottom: 1px solid #e2e8f0; text-align: left; }\n        th { background: #f1f5f9; color: #0f172a; font-weight: 600; }\n        .topic-grid { display: grid; grid-template-columns: repeat(auto-fit, minmax(190px, 1fr)); gap: 1rem; margin-bottom: 1rem; }\n        .topic-picker { display: flex; flex-direction: column; gap: 0.45rem; padding: 0.75rem; background: #f8fafc; border: 1px solid #dbeafe; border-radius: 10px; transition: border 0.15s ease, box-shadow 0.15s ease, background 0.15s ease; }\n        .topic-picker select { padding: 0.6rem; border-radius: 8px; border: 1px solid #cbd5f5; background: #ffffff; }\n        .topic-picker.active { border-color: #2563eb; box-shadow: 0 0 0 3px rgba(37, 99, 235, 0.12); background: #eff6ff; }\n        .journal-form-actions { display: flex; flex-wrap: wrap; gap: 0.75rem; margin-top: 1rem; }\n        button.secondary { background: #ffffff; color: #1d4ed8; border: 1px solid #93c5fd; }\n        button.secondary:hover { background: #dbeafe; }\n        .action-stack { display: flex; flex-direction: column; gap: 0.5rem; }\n        .action-stack form { margin: 0; }\n        .app-footer { margin-top: 3rem; text-align: center; font-size: 0.85rem; color: #94a3b8; }\n";
/// Part 1 of the grader settings page.
pub const GRADER_SETTINGS_1: &'static str = "\n    </style>\n</head>\n<body>\n    <header>\n        <div class=\"header-bar\">\n            <h1>稿件评估模块设置</h1>\n            <a class=\"back-link\" href=\"/tools/grader\">← 返回评估工具</a>\n        </div>\n        <p>配置稿件评估与期刊匹配使用的模型、提示词、主题与期刊阈值。</p>\n    </header>\n    <main>\n        <p>当前登录：<strong>";
/// Part 2 of the grader settings page.
pub const GRADER_SETTINGS_2: &'static str = "</strong></p>\n        ";
/// Part 3 of the grader settings page.
pub const GRADER_SETTINGS_3: &'static str = "\n        <section class=\"panel\">\n            <h2>模型配置</h2>\n            <form method=\"post\" action=\"/dashboard/modules/grader/models\">\n                <input type=\"hidden\" name=\"redirect\" value=\"/dashboard/modules/grader\">\n                <label for=\"grader-model\">评分模型</label>\n                <input id=\"grader-model\" name=\"grading_model\" type=\"text\" value=\"";
/// Part 4 of the grader settings page.
pub const GRADER_SETTINGS_4: &'static str = "\" required>\n                <label for=\"keyword-model\">关键词模型</label>\n                <input id=\"keyword-model\" name=\"keyword_model\" type=\"text\" value=\"";
/// Part 5 of the grader settings page.
pub const GRADER_SETTINGS_5: &'static str = "\" required>\n                <button type=\"submit\">保存模型</button>\n            </form>\n        </section>\n        <section class=\"panel\">\n            <h2>提示词配置</h2>\n            <form method=\"post\" action=\"/dashboard/modules/grader/prompts\">\n                <input type=\"hidden\" name=\"redirect\" value=\"/dashboard/modules/grader\">\n                <label for=\"grader-instructions\">评分提示词</label>\n                <textarea id=\"grader-instructions\" name=\"grading_instructions\" required>";
/// Part 6 of the grader settings page.
pub const GRADER_SETTINGS_6: &'static str = "</textarea>\n                <label for=\"keyword-selection\">关键词识别提示词</label>\n                <textarea id=\"keyword-selection\" name=\"keyword_selection\" required>";
/// Part 7 of the grader settings page.
pub const GRADER_SETTINGS_7: &'static str = "</textarea>\n                <button type=\"submit\">保存提示词</button>\n            </form>\n        </section>\n        ";
/// Part 8 of the grader settings page.
pub const GRADER_SETTINGS_8: &'static str = "\n        ";
/// Part 9 of the grader settings page.
pub const GRADER_SETTINGS_9: &'static str = "\n        ";
/// Part 10 of the grader settings page.
pub const GRADER_SETTINGS_10: &'static str = "\n    </main>\n</body>\n</html>";

/// The grader settings page: the escaped administrator name, the flash box, the model and prompt forms filled with the escaped settings, the topic editor, the given journal section and the footer.
pub open spec fn grader_settings_html(username: Seq<char>, status: Option<&str>, error: Option<&str>, models: GraderModels, prompts: GraderPrompts, topics: Seq<JournalTopicRow>, journal_html: Seq<char>, footer: Seq<char>) -> Seq<char> {
    GRADER_SETTINGS_0@ + (MODULE_ADMIN_SHARED_STYLES@) + GRADER_SETTINGS_1@ + (escape(username)) + GRADER_SETTINGS_2@ + (admin_flash(status, error)) + GRADER_SETTINGS_3@ + (escape(models.grading_model@)) + GRADER_SETTINGS_4@ + (escape(models.keyword_model@)) + GRADER_SETTINGS_5@ + (escape(prompts.grading_instructions@)) + GRADER_SETTINGS_6@ + (escape(prompts.keyword_selection@)) + GRADER_SETTINGS_7@ + (topic_section_html(topics, "/dashboard/modules/grader"@)) + GRADER_SETTINGS_8@ + (journal_html) + GRADER_SETTINGS_9@ + (footer) + GRADER_SETTINGS_10@
}

/// Renders the grader settings page.
pub fn render_grader_settings_page(username: &str, status: Option<&str>, error: Option<&str>, models: &GraderModels, prompts: &GraderPrompts, journal_topics: &[JournalTopicRow], journal_html: &str, footer: &str) -> (res: String)
    ensures
        res@ == grader_settings_html(username@, status, error, *models, *prompts, journal_topics@, journal_html@, footer@),
{
    let mut out = to_owned_string(GRADER_SETTINGS_0);
    push_str(&mut out, MODULE_ADMIN_SHARED_STYLES);
    push_str(&mut out, GRADER_SETTINGS_1);
    let h1 = escape_html(username);
    push_str(&mut out, h1.as_str());
    push_str(&mut out, GRADER_SETTINGS_2);
    let h2 = compose_flash_message(status, error);
    push_str(&mut out, h2.as_str());
    push_str(&mut out, GRADER_SETTINGS_3);
    let h3 = escape_html(models.grading_model.as_str());
    push_str(&mut out, h3.as_str());
    push_str(&mut out, GRADER_SETTINGS_4);
    let h4 = escape_html(models.keyword_model.as_str());
    push_str(&mut out, h4.as_str());
    push_str(&mut out, GRADER_SETTINGS_5);
    let h5 = escape_html(prompts.grading_instructions.as_str());
    push_str(&mut out, h5.as_str());
    push_str(&mut out, GRADER_SETTINGS_6);
    let h6 = escape_html(prompts.keyword_selection.as_str());
    push_str(&mut out, h6.as_str());
    push_str(&mut out, GRADER_SETTINGS_7);
    let h7 = render_topic_section(journal_topics, "/dashboard/modules/grader");
    push_str(&mut out, h7.as_str());
    push_str(&mut out, GRADER_SETTINGS_8);
    push_str(&mut out, journal_html);
    push_str(&mut out, GRADER_SETTINGS_9);
    push_str(&mut out, footer);
    push_str(&mut out, GRADER_SETTINGS_10);
    assert(out@ =~= grader_settings_html(username@, status, error, *models, *prompts, journal_topics@, journal_html@, footer@));
    out
}

/// Part 0 of the referee settings page.
pub const REFEREE_SETTINGS_0: &'static str = "<!DOCTYPE html>\n<html lang=\"zh-CN\">\n<head>\n    <meta charset=\"UTF-8\">\n    <title>审稿助手模块设置</title>\n    <meta name=\"viewport\" content=\"width=device-width, initial-scale=1\">\n    <meta name=\"robots\" content=\"noindex,nofollow\">\n    <style>\n        :root { color-scheme: light; }\n        body { font-family: \"Helvetica Neue\", Arial, sans-serif; margin: 0; background: #f8fafc; color: #0f172a; }\n        header { background: #ffffff; padding: 2rem 1.5rem; border-bottom: 1px solid #e2e8f0; }\n        .header-bar { display: flex; justify-content: space-between; align-items: center; flex-wrap: wrap; gap: 1rem; }\n        .back-link { display: inline-flex; align-items: center; gap: 0.4rem; color: #1d4ed8; text-decoration: none; font-weight: 600; background: #e0f2fe; padding: 0.5rem 0.95rem; border-radius: 999px; border: 1px solid #bfdbfe; transition: background 0.15s ease, border 0.15s ease; }\n        .back-link:hover { background: #bfdbfe; border-color: #93c5fd; }\n        main { padding: 2rem 1.5rem; max-width: 1100px; margin: 0 auto; box-sizing: border-box; }\n        .panel { background: #ffffff; border-radius: 12px; border: 1px solid #e2e8f0; padding: 1.5rem; box-shadow: 0 18px 40px rgba(15, 23, 42, 0.08); margin-bottom: 2rem; }\n        label { display: block; margin-bottom: 0.5rem; font-weight: 600; color: #0f172a; }\n        input[type=\"text\"], textarea { width: 100%; padding: 0.75rem; border-radius: 8px; border: 1px solid #cbd5f5; background: #f8fafc; color: #0f172a; box-sizing: border-box; font-family: inherit; }\n        textarea { min-height: 160px; }\n        input[type=\"text\"]:focus, textarea:focus { outline: none; border-color: #2563eb; box-shadow: 0 0 0 3px rgba(37, 99, 235, 0.12); }\n        button { padding: 0.85rem 1.2rem; border: none; border-radius: 8px; background: #2563eb; color: #ffffff; font-weight: 600; cursor: pointer; transition: background 0.15s ease; }\n        button:hover { background: #1d4ed8; }\n        .flash { padding: 1rem; border-radius: 8px; margin-bottom: 1.5rem; border: 1px solid transparent; }\n        .flash.success { background: #ecfdf3; border-color: #bbf7d0; color: #166534; }\n        .flash.error { background: #fef2f2; border-color: #fecaca; color: #b91c1c; }\n        .model-group { display: grid; grid-template-columns: 1fr; gap: 1rem; margin-bottom: 1rem; }\n        .model-subgroup { background: #f8fafc; padding: 1rem; border: 1px solid #e2e8f0; border-radius: 8px; }\n        .model-subgroup h3 { margin-top: 0; margin-bottom: 1rem; font-size: 1.05rem; color: #334155; }\n        .app-footer { margin-top: 3rem; text-align: center; font-size: 0.85rem; color: #94a3b8; }\n";
/// Part 1 of the referee settings page.
pub const REFEREE_SETTINGS_1: &'static str = "\n    </style>\n</head>\n<body>\n    <header>\n        <div class=\"header-bar\">\n            <h1>审稿助手模块设置</h1>\n            <a class=\"back-link\" href=\"/tools/referee\">← 返回审稿工具</a>\n        </div>\n        <p>配置审稿助手使用的模型和提示词。系统会使用8个不同模型进行首轮审稿，然后使用单一模型生成元审稿和事实核查报告。</p>\n    </header>\n    <main>\n        <p>当前登录：<strong>";
/// Part 2 of the referee settings page.
pub const REFEREE_SETTINGS_2: &'static str = "</strong></p>\n        ";
/// Part 3 of the referee settings page.
pub const REFEREE_SETTINGS_3: &'static str = "\n        <section class=\"panel\">\n            <h2>模型配置</h2>\n            <form method=\"post\" action=\"/dashboard/modules/referee/models\">\n                <input type=\"hidden\" name=\"redirect\" value=\"/dashboard/modules/referee\">\n                <div class=\"model-group\">\n                    <div class=\"model-subgroup\">\n                        <h3>第一轮审稿模型（8个并行）</h3>\n                        <label for=\"round1-model-1\">模型 1</label>\n                        <input id=\"round1-model-1\" name=\"round1_model_1\" type=\"text\" value=\"";
/// Part 4 of the referee settings page.
pub const REFEREE_SETTINGS_4: &'static str = "\" required>\n                        <label for=\"round1-model-2\">模型 2</label>\n                        <input id=\"round1-model-2\" name=\"round1_model_2\" type=\"text\" value=\"";
/// Part 5 of the referee settings page.
pub const REFEREE_SETTINGS_5: &'static str = "\" required>\n                        <label for=\"round1-model-3\">模型 3</label>\n                        <input id=\"round1-model-3\" name=\"round1_model_3\" type=\"text\" value=\"";
/// Part 6 of the referee settings page.
pub const REFEREE_SETTINGS_6: &'static str = "\" required>\n                        <label for=\"round1-model-4\">模型 4</label>\n                        <input id=\"round1-model-4\" name=\"round1_model_4\" type=\"text\" value=\"";
/// Part 7 of the referee settings page.
pub const REFEREE_SETTINGS_7: &'static str = "\" required>\n                        <label for=\"round1-model-5\">模型 5</label>\n                        <input id=\"round1-model-5\" name=\"round1_model_5\" type=\"text\" value=\"";
/// Part 8 of the referee settings page.
pub const REFEREE_SETTINGS_8: &'static str = "\" required>\n                        <label for=\"round1-model-6\">模型 6</label>\n                        <input id=\"round1-model-6\" name=\"round1_model_6\" type=\"text\" value=\"";
/// Part 9 of the referee settings page.
pub const REFEREE_SETTINGS_9: &'static str = "\" required>\n                        <label for=\"round1-model-7\">模型 7</label>\n                        <input id=\"round1-model-7\" name=\"round1_model_7\" type=\"text\" value=\"";
/// Part 10 of the referee settings page.
pub const REFEREE_SETTINGS_10: &'static str = "\" required>\n                        <label for=\"round1-model-8\">模型 8</label>\n                        <input id=\"round1-model-8\" name=\"round1_model_8\" type=\"text\" value=\"";
/// Part 11 of the referee settings page.
pub const REFEREE_SETTINGS_11: &'static str = "\" required>\n                    </div>\n                    <div class=\"model-subgroup\">\n                        <h3>第二轮元审稿模型</h3>\n                        <label for=\"round2-model\">综合审稿模型</label>\n                        <input id=\"round2-model\" name=\"round2_model\" type=\"text\" value=\"";
/// Part 12 of the referee settings page.
pub const REFEREE_SETTINGS_12: &'static str = "\" required>\n                    </div>\n                    <div class=\"model-subgroup\">\n                        <h3>第三轮事实核查模型</h3>\n                        <label for=\"round3-model\">事实核查模型</label>\n                        <input id=\"round3-model\" name=\"round3_model\" type=\"text\" value=\"";
/// Part 13 of the referee settings page.
pub const REFEREE_SETTINGS_13: &'static str = "\" required>\n                    </div>\n                </div>\n                <button type=\"submit\">保存模型</button>\n            </form>\n        </section>\n        <section class=\"panel\">\n            <h2>提示词配置</h2>\n            <form method=\"post\" action=\"/dashboard/modules/referee/prompts\">\n                <input type=\"hidden\" name=\"redirect\" value=\"/dashboard/modules/referee\">\n                <label for=\"initial-prompt\">第一轮审稿提示词（英文）</label>\n                <textarea id=\"initial-prompt\" name=\"initial_prompt\" required>";
/// Part 14 of the referee settings page.
pub const REFEREE_SETTINGS_14: &'static str = "</textarea>\n                <label for=\"initial-prompt-zh\">第一轮审稿提示词（中文）</label>\n                <textarea id=\"initial-prompt-zh\" name=\"initial_prompt_zh\" required>";
/// Part 15 of the referee settings page.
pub const REFEREE_SETTINGS_15: &'static str = "</textarea>\n                <label for=\"secondary-prompt\">第二轮元审稿提示词（英文）</label>\n                <textarea id=\"secondary-prompt\" name=\"secondary_prompt\" required>";
/// Part 16 of the referee settings page.
pub const REFEREE_SETTINGS_16: &'static str = "</textarea>\n                <label for=\"secondary-prompt-zh\">第二轮元审稿提示词（中文）</label>\n                <textarea id=\"secondary-prompt-zh\" name=\"secondary_prompt_zh\" required>";
/// Part 17 of the referee settings page.
pub const REFEREE_SETTINGS_17: &'static str = "</textarea>\n                <label for=\"final-prompt\">第三轮事实核查提示词（英文）</label>\n                <textarea id=\"final-prompt\" name=\"final_prompt\" required>";
/// Part 18 of the referee settings page.
pub const REFEREE_SETTINGS_18: &'static str = "</textarea>\n                <label for=\"final-prompt-zh\">第三轮事实核查提示词（中文）</label>\n                <textarea id=\"final-prompt-zh\" name=\"final_prompt_zh\" required>";
/// Part 19 of the referee settings page.
pub const REFEREE_SETTINGS_19: &'static str = "</textarea>\n                <button type=\"submit\">保存提示词</button>\n            </form>\n        </section>\n    </main>\n    ";
/// Part 20 of the referee settings page.
pub const REFEREE_SETTINGS_20: &'static str = "\n</body>\n</html>";

/// The referee settings page: the escaped administrator name, the flash box, the model and prompt forms filled with the escaped settings and the footer.
pub open spec fn referee_settings_html(username: Seq<char>, status: Option<&str>, error: Option<&str>, models: ReviewerModels, prompts: ReviewerPrompts, footer: Seq<char>) -> Seq<char> {
    REFEREE_SETTINGS_0@ + (MODULE_ADMIN_SHARED_STYLES@) + REFEREE_SETTINGS_1@ + (escape(username)) + REFEREE_SETTINGS_2@ + (admin_flash(status, error)) + REFEREE_SETTINGS_3@ + (escape(models.round1_model_1@)) + REFEREE_SETTINGS_4@ + (escape(models.round1_model_2@)) + REFEREE_SETTINGS_5@ + (escape(models.round1_model_3@)) + REFEREE_SETTINGS_6@ + (escape(models.round1_model_4@)) + REFEREE_SETTINGS_7@ + (escape(models.round1_model_5@)) + REFEREE_SETTINGS_8@ + (escape(models.round1_model_6@)) + REFEREE_SETTINGS_9@ + (escape(models.round1_model_7@)) + REFEREE_SETTINGS_10@ + (escape(models.round1_model_8@)) + REFEREE_SETTINGS_11@ + (escape(models.round2_model@)) + REFEREE_SETTINGS_12@ + (escape(models.round3_model@)) + REFEREE_SETTINGS_13@ + (escape(prompts.initial_prompt@)) + REFEREE_SETTINGS_14@ + (escape(prompts.initial_prompt_zh@)) + REFEREE_SETTINGS_15@ + (escape(prompts.secondary_prompt@)) + REFEREE_SETTINGS_16@ + (escape(prompts.secondary_prompt_zh@)) + REFEREE_SETTINGS_17@ + (escape(prompts.final_prompt@)) + REFEREE_SETTINGS_18@ + (escape(prompts.final_prompt_zh@)) + REFEREE_SETTINGS_19@ + (footer) + REFEREE_SETTINGS_20@
}

/// Renders the referee settings page.
pub fn render_referee_settings_page(username: &str, status: Option<&str>, error: Option<&str>, models: &ReviewerModels, prompts: &ReviewerPrompts, footer: &str) -> (res: String)
    ensures
        res@ == referee_settings_html(username@, status, error, *models, *prompts, footer@),
{
    let mut out = to_owned_string(REFEREE_SETTINGS_0);
    push_str(&mut out, MODULE_ADMIN_SHARED_STYLES);
    push_str(&mut out, REFEREE_SETTINGS_1);
    let h1 = escape_html(username);
    push_str(&mut out, h1.as_str());
    push_str(&mut out, REFEREE_SETTINGS_2);
    let h2 = compose_flash_message(status, error);
    push_str(&mut out, h2.as_str());
    push_str(&mut out, REFEREE_SETTINGS_3);
    let h3 = escape_html(models.round1_model_1.as_str());
    push_str(&mut out, h3.as_str());
    push_str(&mut out, REFEREE_SETTINGS_4);
    let h4 = escape_html(models.round1_model_2.as_str());
    push_str(&mut out, h4.as_str());
    push_str(&mut out, REFEREE_SETTINGS_5);
    let h5 = escape_html(models.round1_model_3.as_str());
    push_str(&mut out, h5.as_str());
    push_str(&mut out, REFEREE_SETTINGS_6);
    let h6 = escape_html(models.round1_model_4.as_str());
    push_str(&mut out, h6.as_str());
    push_str(&mut out, REFEREE_SETTINGS_7);
    let h7 = escape_html(models.round1_model_5.as_str());
    push_str(&mut out, h7.as_str());
    push_str(&mut out, REFEREE_SETTINGS_8);
    let h8 = escape_html(models.round1_model_6.as_str());
    push_str(&mut out, h8.as_str());
    push_str(&mut out, REFEREE_SETTINGS_9);
    let h9 = escape_html(models.round1_model_7.as_str());
    push_str(&mut out, h9.as_str());
    push_str(&mut out, REFEREE_SETTINGS_10);
    let h10 = escape_html(models.round1_model_8.as_str());
    push_str(&mut out, h10.as_str());
    push_str(&mut out, REFEREE_SETTINGS_11);
    let h11 = escape_html(models.round2_model.as_str());
    push_str(&mut out, h11.as_str());
    push_str(&mut out, REFEREE_SETTINGS_12);
    let h12 = escape_html(models.round3_model.as_str());
    push_str(&mut out, h12.as_str());
    push_str(&mut out, REFEREE_SETTINGS_13);
    let h13 = escape_html(prompts.initial_prompt.as_str());
    push_str(&mut out, h13.as_str());
    push_str(&mut out, REFEREE_SETTINGS_14);
    let h14 = escape_html(prompts.initial_prompt_zh.as_str());
    push_str(&mut out, h14.as_str());
    push_str(&mut out, REFEREE_SETTINGS_15);
    let h15 = escape_html(prompts.secondary_prompt.as_str());
    push_str(&mut out, h15.as_str());
    push_str(&mut out, REFEREE_SETTINGS_16);
    let h16 = escape_html(prompts.secondary_prompt_zh.as_str());
    push_str(&mut out, h16.as_str());
    push_str(&mut out, REFEREE_SETTINGS_17);
    let h17 = escape_html(prompts.final_prompt.as_str());
    push_str(&mut out, h17.as_str());
    push_str(&mut out, REFEREE_SETTINGS_18);
    let h18 = escape_html(prompts.final_prompt_zh.as_str());
    push_str(&mut out, h18.as_str());
    push_str(&mut out, REFEREE_SETTINGS_19);
    push_str(&mut out, footer);
    push_str(&mut out, REFEREE_SETTINGS_20);
    assert(out@ =~= referee_settings_html(username@, status, error, *models, *prompts, footer@));
    out
}

/// Part 0 of the infoextract settings page.
pub const INFOEXTRACT_SETTINGS_0: &'static str = "<!DOCTYPE html>\n<html lang=\"zh-CN\">\n<head>\n    <meta charset=\"UTF-8\">\n    <title>信息提取模块设置</title>\n    <meta name=\"viewport\" content=\"width=device-width, initial-scale=1\">\n    <meta name=\"robots\" content=\"noindex,nofollow\">\n    <style>\n        :root { color-scheme: light; }\n        body { font-family: \"Helvetica Neue\", Arial, sans-serif; margin: 0; background: #f8fafc; color: #0f172a; }\n        header { background: #ffffff; padding: 2rem 1.5rem; border-bottom: 1px solid #e2e8f0; }\n        .header-bar { display: flex; justify-content: space-between; align-items: center; flex-wrap: wrap; gap: 1rem; }\n        .back-link { display: inline-flex; align-items: center; gap: 0.4rem; color: #1d4ed8; text-decoration: none; font-weight: 600; background: #e0f2fe; padding: 0.5rem 0.95rem; border-radius: 999px; border: 1px solid #bfdbfe; transition: background 0.15s ease, border 0.15s ease; }\n        .back-link:hover { background: #bfdbfe; border-color: #93c5fd; }\n        main { padding: 2rem 1.5rem; max-width: 960px; margin: 0 auto; box-sizing: border-box; }\n        .panel { background: #ffffff; border-radius: 12px; border: 1px solid #e2e8f0; padding: 1.5rem; box-shadow: 0 18px 40px rgba(15, 23, 42, 0.08); margin-bottom: 2rem; }\n        label { display: block; margin-bottom: 0.5rem; font-weight: 600; color: #0f172a; }\n        input[type=\"text\"], textarea { width: 100%; padding: 0.75rem; border-radius: 8px; border: 1px solid #cbd5f5; background: #f8fafc; color: #0f172a; box-sizing: border-box; font-family: inherit; }\n        textarea { min-height: 160px; }\n        input[type=\"text\"]:focus, textarea:focus { outline: none; border-color: #2563eb; box-shadow: 0 0 0 3px rgba(37, 99, 235, 0.12); }\n        button { padding: 0.85rem 1.2rem; border: none; border-radius: 8px; background: #2563eb; color: #ffffff; font-weight: 600; cursor: pointer; transition: background 0.15s ease; }\n        button:hover { background: #1d4ed8; }\n        .flash { padding: 1rem; border-radius: 8px; margin-bottom: 1.5rem; border: 1px solid transparent; }\n        .flash.success { background: #ecfdf3; border-color: #bbf7d0; color: #166534; }\n        .flash.error { background: #fef2f2; border-color: #fecaca; color: #b91c1c; }\n        .app-footer { margin-top: 3rem; text-align: center; font-size: 0.85rem; color: #94a3b8; }\n";
/// Part 1 of the infoextract settings page.
pub const INFOEXTRACT_SETTINGS_1: &'static str = "\n    </style>\n</head>\n<body>\n    <header>\n        <div class=\"header-bar\">\n            <h1>信息提取模块设置</h1>\n            <a class=\"back-link\" href=\"/tools/infoextract\">← 返回模块</a>\n        </div>\n        <p>配置用于系统综述信息抽取的模型与提示词。</p>\n    </header>\n    <main>\n        <p>当前登录：<strong>";
/// Part 2 of the infoextract settings page.
pub const INFOEXTRACT_SETTINGS_2: &'static str = "</strong></p>\n        ";
/// Part 3 of the infoextract settings page.
pub const INFOEXTRACT_SETTINGS_3: &'static str = "\n        <section class=\"panel\">\n            <h2>模型配置</h2>\n            <form method=\"post\" action=\"/dashboard/modules/infoextract/models\">\n                <input type=\"hidden\" name=\"redirect\" value=\"/dashboard/modules/infoextract\">\n                <label for=\"model\">信息提取模型</label>\n                <input id=\"model\" name=\"extraction_model\" type=\"text\" value=\"";
/// Part 4 of the infoextract settings page.
pub const INFOEXTRACT_SETTINGS_4: &'static str = "\" required>\n                <button type=\"submit\">保存模型</button>\n            </form>\n        </section>\n        <section class=\"panel\">\n            <h2>提示词配置</h2>\n            <form method=\"post\" action=\"/dashboard/modules/infoextract/prompts\">\n                <input type=\"hidden\" name=\"redirect\" value=\"/dashboard/modules/infoextract\">\n                <label for=\"system\">系统提示词</label>\n                <textarea id=\"system\" name=\"system_prompt\" required>";
/// Part 5 of the infoextract settings page.
pub const INFOEXTRACT_SETTINGS_5: &'static str = "</textarea>\n                <label for=\"guidance\">输出指引</label>\n                <textarea id=\"guidance\" name=\"response_guidance\" required>";
/// Part 6 of the infoextract settings page.
pub const INFOEXTRACT_SETTINGS_6: &'static str = "</textarea>\n                <button type=\"submit\">保存提示词</button>\n            </form>\n        </section>\n        ";
/// Part 7 of the infoextract settings page.
pub const INFOEXTRACT_SETTINGS_7: &'static str = "\n    </main>\n</body>\n</html>";

/// The information extraction settings page: the escaped administrator name, the flash box, the model and prompt forms filled with the escaped settings and the footer.
pub open spec fn infoextract_settings_html(username: Seq<char>, status: Option<&str>, error: Option<&str>, models: InfoExtractModels, prompts: InfoExtractPrompts, footer: Seq<char>) -> Seq<char> {
    INFOEXTRACT_SETTINGS_0@ + (MODULE_ADMIN_SHARED_STYLES@) + INFOEXTRACT_SETTINGS_1@ + (escape(username)) + INFOEXTRACT_SETTINGS_2@ + (admin_flash(status, error)) + INFOEXTRACT_SETTINGS_3@ + (escape(models.extraction_model@)) + INFOEXTRACT_SETTINGS_4@ + (escape(prompts.system_prompt@)) + INFOEXTRACT_SETTINGS_5@ + (escape(prompts.response_guidance@)) + INFOEXTRACT_SETTINGS_6@ + (footer) + INFOEXTRACT_SETTINGS_7@
}

/// Renders the infoextract settings page.
pub fn render_infoextract_settings_page(username: &str, status: Option<&str>, error: Option<&str>, models: &InfoExtractModels, prompts: &InfoExtractPrompts, footer: &str) -> (res: String)
    ensures
        res@ == infoextract_settings_html(username@, status, error, *models, *prompts, footer@),
{
    let mut out = to_owned_string(INFOEXTRACT_SETTINGS_0);
    push_str(&mut out, MODULE_ADMIN_SHARED_STYLES);
    push_str(&mut out, INFOEXTRACT_SETTINGS_1);
    let h1 = escape_html(username);
    push_str(&mut out, h1.as_str());
    push_str(&mut out, INFOEXTRACT_SETTINGS_2);
    let h2 = compose_flash_message(status, error);
    push_str(&mut out, h2.as_str());
    push_str(&mut out, INFOEXTRACT_SETTINGS_3);
    let h3 = escape_html(models.extraction_model.as_str());
    push_str(&mut out, h3.as_str());
    push_str(&mut out, INFOEXTRACT_SETTINGS_4);
    let h4 = escape_html(prompts.system_prompt.as_str());
    push_str(&mut out, h4.as_str());
    push_str(&mut out, INFOEXTRACT_SETTINGS_5);
    let h5 = escape_html(prompts.response_guidance.as_str());
    push_str(&mut out, h5.as_str());
    push_str(&mut out, INFOEXTRACT_SETTINGS_6);
    push_str(&mut out, footer);
    push_str(&mut out, INFOEXTRACT_SETTINGS_7);
    assert(out@ =~= infoextract_settings_html(username@, status, error, *models, *prompts, footer@));
    out
}

} // verus!
