//! Sections shared by the module settings pages: the glossary editor, the
//! journal topic editor and the journal reference table with its form.

use vstd::prelude::*;

use crate::text::{chars_of, escape, escape_html, push_signed_decimal, push_str, signed_decimal, str_eq, to_owned_string};

verus! {

/// CSS of the shared admin sections.
pub const MODULE_ADMIN_SHARED_STYLES: &'static str = "\n        section.admin {\n            margin-bottom: 2rem;\n            padding: 1.5rem;\n            border-radius: 12px;\n            background: #ffffff;\n            border: 1px solid #e2e8f0;\n            box-shadow: 0 18px 40px rgba(15, 23, 42, 0.08);\n        }\n        section.admin h2 {\n            margin-top: 0;\n            color: #1d4ed8;\n        }\n        section.admin h3 {\n            margin-top: 0;\n            color: #0f172a;\n        }\n        .section-note {\n            color: #475569;\n            font-size: 0.95rem;\n            margin-bottom: 1rem;\n        }\n        .stack {\n            display: flex;\n            flex-direction: column;\n            gap: 1.5rem;\n        }\n        .glossary-forms {\n            display: grid;\n            grid-template-columns: repeat(auto-fit, minmax(260px, 1fr));\n            gap: 1.5rem;\n        }\n        .glossary-forms form {\n            background: #f8fafc;\n            border: 1px solid #e2e8f0;\n            border-radius: 10px;\n            padding: 1.25rem;\n        }\n        .glossary-forms h3 {\n            margin-bottom: 0.75rem;\n        }\n        .field {\n            margin-bottom: 1rem;\n        }\n        .field label {\n            display: block;\n            margin-bottom: 0.4rem;\n            font-weight: 600;\n            color: #0f172a;\n        }\n        .field input,\n        .field select,\n        .field textarea {\n            width: 100%;\n            padding: 0.75rem;\n            border-radius: 8px;\n            border: 1px solid #cbd5f5;\n            background: #f8fafc;\n            color: #0f172a;\n            box-sizing: border-box;\n        }\n        .field input:focus,\n        .field select:focus,\n        .field textarea:focus {\n            outline: none;\n            border-color: #2563eb;\n            box-shadow: 0 0 0 3px rgba(37, 99, 235, 0.12);\n        }\n        .glossary table {\n            width: 100%;\n            border-collapse: collapse;\n            background: #ffffff;\n            border-radius: 12px;\n            overflow: hidden;\n        }\n        .glossary thead {\n            background: #f1f5f9;\n        }\n        .glossary th,\n        .glossary td {\n            padding: 0.75rem 1rem;\n            border-bottom: 1px solid #e2e8f0;\n            text-align: left;\n        }\n        .modal {\n            display: none;\n            position: fixed;\n            z-index: 1000;\n            padding-top: 100px;\n            left: 0;\n            top: 0;\n            width: 100%;\n            height: 100%;\n            overflow: auto;\n            background-color: rgba(15, 23, 42, 0.45);\n        }\n        .modal-content {\n            background-color: #fefefe;\n            margin: auto;\n            padding: 20px;\n            border: 1px solid #e2e8f0;\n            width: 480px;\n            border-radius: 12px;\n            box-shadow: 0 18px 40px rgba(15, 23, 42, 0.2);\n        }\n        .modal-content.modal-large {\n            width: min(820px, 90%);\n        }\n        .modal-header {\n            display: flex;\n            align-items: center;\n            justify-content: space-between;\n            margin-bottom: 1rem;\n        }\n        .modal-actions {\n            margin-top: 1.5rem;\n            display: flex;\n            justify-content: flex-end;\n            gap: 0.75rem;\n        }\n        .btn-sm {\n            padding: 0.5rem 0.85rem;\n            border-radius: 8px;\n            border: none;\n            background: #2563eb;\n            color: #ffffff;\n            cursor: pointer;\n            font-weight: 600;\n        }\n        .btn-sm.btn-warning {\n            background: #f97316;\n        }\n        .btn-sm.btn-warning:hover {\n            background: #ea580c;\n        }\n        .btn-primary {\n            padding: 0.75rem 1.25rem;\n            border-radius: 8px;\n            background: #2563eb;\n            color: #ffffff;\n            border: none;\n            font-weight: 600;\n            cursor: pointer;\n            transition: background 0.15s ease;\n        }\n        .btn-primary:hover {\n            background: #1d4ed8;\n        }\n        button.danger {\n            background: #ef4444;\n            border: none;\n            padding: 0.45rem 0.85rem;\n            border-radius: 8px;\n            color: #ffffff;\n            cursor: pointer;\n        }\n        button.danger:hover {\n            background: #dc2626;\n        }\n        table.glossary tbody tr:nth-child(even) {\n            background: #f8fafc;\n        }\n        .topic-picker.activemed {\n            border-color: #2563eb;\n        }\n";

/// A stored glossary term, its id in hyphenated text form.
#[derive(Debug, Clone)]
pub struct GlossaryTermRow {
    pub id: String,
    pub source_term: String,
    pub target_term: String,
    pub notes: Option<String>,
}

/// A stored journal topic, with the day it was created as `YYYY-MM-DD`.
#[derive(Debug, Clone)]
pub struct JournalTopicRow {
    pub id: String,
    pub name: String,
    pub description: Option<String>,
    pub created_on: String,
}

/// An optional text as a table cell: escaped, or a dash when absent or empty.
pub open spec fn cell_or_dash(text: Option<String>) -> Seq<char> {
    match text {
        Some(t) => if t@.len() == 0 { "—"@ } else { escape(t@) },
        None => "—"@,
    }
}

/// Renders an optional text as a table cell.
pub fn render_cell_or_dash(text: &Option<String>) -> (res: String)
    ensures
        res@ == cell_or_dash(*text),
{
    match text {
        Some(t) => {
            if t.as_str().is_empty() {
                "—".to_owned()
            } else {
                escape_html(t.as_str())
            }
        },
        None => "—".to_owned(),
    }
}

/// One row of the glossary table, with its delete form.
pub open spec fn glossary_row_html(term: GlossaryTermRow, redirect: Seq<char>) -> Seq<char> {
    "<tr>\n    <td>"@ + escape(term.source_term@) + "</td>\n    <td>"@ + escape(term.target_term@) + "</td>\n    <td>"@
        + cell_or_dash(term.notes)
        + "</td>\n    <td>\n        <form method=\"post\" action=\"/dashboard/glossary/delete\" onsubmit=\"return confirm('确认删除该术语吗？');\">\n            <input type=\"hidden\" name=\"id\" value=\""@
        + term.id@ + "\">\n            <input type=\"hidden\" name=\"redirect\" value=\""@ + redirect
        + "\">\n            <button type=\"submit\" class=\"danger\">删除</button>\n        </form>\n    </td>\n</tr>"@
}

/// One option of the term picker of the update form.
pub open spec fn glossary_option_html(term: GlossaryTermRow) -> Seq<char> {
    "<option value=\""@ + term.id@ + "\">"@ + escape(term.source_term@) + "</option>"@
}

/// The rows of the given terms, in order.
pub open spec fn glossary_rows_html(terms: Seq<GlossaryTermRow>, redirect: Seq<char>) -> Seq<char>
    decreases terms.len(),
{
    if terms.len() == 0 {
        Seq::empty()
    } else {
        glossary_rows_html(terms.drop_last(), redirect) + glossary_row_html(terms.last(), redirect)
    }
}

/// The picker options of the given terms, in order.
pub open spec fn glossary_options_html(terms: Seq<GlossaryTermRow>) -> Seq<char>
    decreases terms.len(),
{
    if terms.len() == 0 {
        Seq::empty()
    } else {
        glossary_options_html(terms.drop_last()) + glossary_option_html(terms.last())
    }
}

/// The glossary section: the table of terms (or a note that there are none),
/// the form that adds a term, and the form that updates one, which is
/// disabled while the glossary is empty.
pub open spec fn glossary_section_html(terms: Seq<GlossaryTermRow>, redirect: Seq<char>) -> Seq<char> {
    let rows = if terms.len() == 0 {
        "<tr><td colspan=\"4\">尚未添加术语。</td></tr>"@
    } else {
        glossary_rows_html(terms, redirect)
    };
    let disabled = if terms.len() == 0 { " disabled"@ } else { Seq::empty() };
    GLOSSARY_SECTION_START@ + rows + GLOSSARY_SECTION_ADD@ + redirect + GLOSSARY_SECTION_ADD_FIELDS@ + redirect
        + GLOSSARY_SECTION_PICKER@ + disabled + ">\n                        "@ + glossary_options_html(terms)
        + GLOSSARY_SECTION_SOURCE@ + disabled + GLOSSARY_SECTION_TARGET@ + disabled + GLOSSARY_SECTION_NOTES@
        + disabled + ">\n                </div>\n                <button type=\"submit\""@ + disabled
        + ">保存修改</button>\n            </form>\n        </div>\n    </div>\n</section>"@
}

/// The glossary section up to its table rows.
pub const GLOSSARY_SECTION_START: &'static str = "<section class=\"admin\">\n    <h2>术语表管理</h2>\n    <p class=\"section-note\">该术语表同时用于摘要与 DOCX 翻译模块。</p>\n    <div class=\"stack\">\n        <table class=\"glossary\">\n            <thead>\n                <tr><th>英文</th><th>中文</th><th>备注</th><th>操作</th></tr>\n            </thead>\n            <tbody>\n                ";

/// From the end of the rows to the add form's redirect field.
pub const GLOSSARY_SECTION_ADD: &'static str = "\n            </tbody>\n        </table>\n        <div class=\"glossary-forms\">\n            <form method=\"post\" action=\"/dashboard/glossary\">\n                <h3>新增术语</h3>\n                <input type=\"hidden\" name=\"redirect\" value=\"";

/// The add form's fields, up to the update form's redirect field.
pub const GLOSSARY_SECTION_ADD_FIELDS: &'static str = "\">\n                <div class=\"field\">\n                    <label for=\"glossary-source\">英文术语</label>\n                    <input id=\"glossary-source\" name=\"source_term\" required>\n                </div>\n                <div class=\"field\">\\n                    <label for=\"glossary-target\">中文术语</label>\n                    <input id=\"glossary-target\" name=\"target_term\" required>\n                </div>\n                <div class=\"field\">\n                    <label for=\"glossary-notes\">备注（可选）</label>\n                    <input id=\"glossary-notes\" name=\"notes\" placeholder=\"填写上下文或使用说明\">\n                </div>\n                <button type=\"submit\">保存术语</button>\n            </form>\n            <form method=\"post\" action=\"/dashboard/glossary/update\">\n                <h3>更新术语</h3>\n                <input type=\"hidden\" name=\"redirect\" value=\"";

/// The update form's term picker, up to its disabled mark.
pub const GLOSSARY_SECTION_PICKER: &'static str = "\">\n                <div class=\"field\">\n                    <label for=\"glossary-update-id\">选择术语</label>\n                    <select id=\"glossary-update-id\" name=\"id\" required";

/// After the picker's options, up to the source field's disabled mark.
pub const GLOSSARY_SECTION_SOURCE: &'static str = "\n                    </select>\n                </div>\n                <div class=\"field\">\n                    <label for=\"glossary-update-source\">更新后的英文</label>\n                    <input id=\"glossary-update-source\" name=\"source_term\" required";

/// Up to the target field's disabled mark.
pub const GLOSSARY_SECTION_TARGET: &'static str = ">\n                </div>\n                <div class=\"field\">\n                    <label for=\"glossary-update-target\">更新后的中文</label>\n                    <input id=\"glossary-update-target\" name=\"target_term\" required";

/// Up to the notes field's disabled mark.
pub const GLOSSARY_SECTION_NOTES: &'static str = ">\n                </div>\n                <div class=\"field\">\n                    <label for=\"glossary-update-notes\">备注（可选）</label>\n                    <input id=\"glossary-update-notes\" name=\"notes\" placeholder=\"填写上下文或使用说明\"";

/// Renders the glossary section of a settings page; `redirect` is where
/// its forms send the browser back to.
pub fn render_glossary_section(terms: &[GlossaryTermRow], redirect: &str) -> (res: String)
    ensures
        res@ == glossary_section_html(terms@, redirect@),
{
    let mut rows = String::new();
    let mut options = String::new();
    if terms.len() == 0 {
        push_str(&mut rows, "<tr><td colspan=\"4\">尚未添加术语。</td></tr>");
    } else {
        let mut i: usize = 0;
        while i < terms.len()
            invariant
                i <= terms@.len(),
                rows@ == glossary_rows_html(terms@.subrange(0, i as int), redirect@),
                options@ == glossary_options_html(terms@.subrange(0, i as int)),
            decreases terms.len() - i,
        {
            let term = &terms[i];
            push_str(&mut rows, "<tr>\n    <td>");
            let source = escape_html(term.source_term.as_str());
            push_str(&mut rows, source.as_str());
            push_str(&mut rows, "</td>\n    <td>");
            let target = escape_html(term.target_term.as_str());
            push_str(&mut rows, target.as_str());
            push_str(&mut rows, "</td>\n    <td>");
            let notes = render_cell_or_dash(&term.notes);
            push_str(&mut rows, notes.as_str());
            push_str(
                &mut rows,
                "</td>\n    <td>\n        <form method=\"post\" action=\"/dashboard/glossary/delete\" onsubmit=\"return confirm('确认删除该术语吗？');\">\n            <input type=\"hidden\" name=\"id\" value=\"",
            );
            push_str(&mut rows, term.id.as_str());
            push_str(&mut rows, "\">\n            <input type=\"hidden\" name=\"redirect\" value=\"");
            push_str(&mut rows, redirect);
            push_str(
                &mut rows,
                "\">\n            <button type=\"submit\" class=\"danger\">删除</button>\n        </form>\n    </td>\n</tr>",
            );
            push_str(&mut options, "<option value=\"");
            push_str(&mut options, term.id.as_str());
            push_str(&mut options, "\">");
            push_str(&mut options, source.as_str());
            push_str(&mut options, "</option>");
            proof {
                let next = terms@.subrange(0, i + 1);
                assert(next.drop_last() =~= terms@.subrange(0, i as int));
                assert(next.last() == terms@[i as int]);
            }
            i = i + 1;
        }
        assert(terms@.subrange(0, terms@.len() as int) =~= terms@);
    }
    let disabled = if terms.len() == 0 { " disabled" } else { "" };
    proof {
        reveal_strlit("");
        reveal_strlit(" disabled");
    }
    let mut out = to_owned_string(GLOSSARY_SECTION_START);
    push_str(&mut out, rows.as_str());
    push_str(&mut out, GLOSSARY_SECTION_ADD);
    push_str(&mut out, redirect);
    push_str(&mut out, GLOSSARY_SECTION_ADD_FIELDS);
    push_str(&mut out, redirect);
    push_str(&mut out, GLOSSARY_SECTION_PICKER);
    push_str(&mut out, disabled);
    push_str(&mut out, ">\n                        ");
    push_str(&mut out, options.as_str());
    push_str(&mut out, GLOSSARY_SECTION_SOURCE);
    push_str(&mut out, disabled);
    push_str(&mut out, GLOSSARY_SECTION_TARGET);
    push_str(&mut out, disabled);
    push_str(&mut out, GLOSSARY_SECTION_NOTES);
    push_str(&mut out, disabled);
    push_str(&mut out, ">\n                </div>\n                <button type=\"submit\"");
    push_str(&mut out, disabled);
    push_str(&mut out, ">保存修改</button>\n            </form>\n        </div>\n    </div>\n</section>");
    assert(out@ =~= glossary_section_html(terms@, redirect@));
    out
}

/// One row of the topic table, with its delete form.
pub open spec fn topic_row_html(topic: JournalTopicRow, redirect: Seq<char>) -> Seq<char> {
    "<tr><td>"@ + escape(topic.name@) + "</td><td>"@ + cell_or_dash(topic.description) + "</td><td>"@
        + topic.created_on@
        + "</td><td>\n    <form method=\"post\" action=\"/dashboard/journal-topics/delete\" onsubmit=\"return confirm('确定删除该主题？');\">\n        <input type=\"hidden\" name=\"id\" value=\""@
        + topic.id@ + "\">\n        <input type=\"hidden\" name=\"redirect\" value=\""@ + redirect
        + "\">\n        <button type=\"submit\" class=\"danger\">删除</button>\n    </form>\n</td></tr>"@
}

/// The rows of the given topics, in order.
pub open spec fn topic_rows_html(topics: Seq<JournalTopicRow>, redirect: Seq<char>) -> Seq<char>
    decreases topics.len(),
{
    if topics.len() == 0 {
        Seq::empty()
    } else {
        topic_rows_html(topics.drop_last(), redirect) + topic_row_html(topics.last(), redirect)
    }
}

/// The topic section before its rows.
pub const TOPIC_SECTION_START: &'static str = "<section class=\"admin\">\n    <h2>主题管理</h2>\n    <p class=\"section-note\">主题用于稿件关键词识别，可重复提交同名主题覆盖描述。</p>\n    <table>\n        <thead>\n            <tr><th>主题名称</th><th>描述</th><th>创建时间</th><th>操作</th></tr>\n        </thead>\n        <tbody>\n            ";

/// From the end of the rows to the form's redirect field.
pub const TOPIC_SECTION_FORM: &'static str = "\n        </tbody>\n    </table>\n    <form method=\"post\" action=\"/dashboard/journal-topics\">\n        <input type=\"hidden\" name=\"redirect\" value=\"";

/// The rest of the topic form.
pub const TOPIC_SECTION_END: &'static str = "\">\n        <h3>新增或更新主题</h3>\n        <div class=\"field\">\n            <label for=\"topic-name\">主题名称</label>\n            <input id=\"topic-name\" name=\"name\" required>\n        </div>\n        <div class=\"field\">\n            <label for=\"topic-description\">描述（可选）</label>\n            <input id=\"topic-description\" name=\"description\" placeholder=\"例如：用于描述简要范围\">\n        </div>\n        <button type=\"submit\">保存主题</button>\n    </form>\n</section>";

/// The topic section: the table of topics (or a note that there are none)
/// and the form that adds or updates a topic.
pub open spec fn topic_section_html(topics: Seq<JournalTopicRow>, redirect: Seq<char>) -> Seq<char> {
    let rows = if topics.len() == 0 {
        "<tr><td colspan=\"4\">尚未添加主题。</td></tr>"@
    } else {
        topic_rows_html(topics, redirect)
    };
    TOPIC_SECTION_START@ + rows + TOPIC_SECTION_FORM@ + redirect + TOPIC_SECTION_END@
}

/// Renders the journal topic section of a settings page.
pub fn render_topic_section(topics: &[JournalTopicRow], redirect: &str) -> (res: String)
    ensures
        res@ == topic_section_html(topics@, redirect@),
{
    let mut rows = String::new();
    if topics.len() == 0 {
        push_str(&mut rows, "<tr><td colspan=\"4\">尚未添加主题。</td></tr>");
    } else {
        let mut i: usize = 0;
        while i < topics.len()
            invariant
                i <= topics@.len(),
                rows@ == topic_rows_html(topics@.subrange(0, i as int), redirect@),
            decreases topics.len() - i,
        {
            let topic = &topics[i];
            push_str(&mut rows, "<tr><td>");
            let name = escape_html(topic.name.as_str());
            push_str(&mut rows, name.as_str());
            push_str(&mut rows, "</td><td>");
            let description = render_cell_or_dash(&topic.description);
            push_str(&mut rows, description.as_str());
            push_str(&mut rows, "</td><td>");
            push_str(&mut rows, topic.created_on.as_str());
            push_str(
                &mut rows,
                "</td><td>\n    <form method=\"post\" action=\"/dashboard/journal-topics/delete\" onsubmit=\"return confirm('确定删除该主题？');\">\n        <input type=\"hidden\" name=\"id\" value=\"",
            );
            push_str(&mut rows, topic.id.as_str());
            push_str(&mut rows, "\">\n        <input type=\"hidden\" name=\"redirect\" value=\"");
            push_str(&mut rows, redirect);
            push_str(&mut rows, "\">\n        <button type=\"submit\" class=\"danger\">删除</button>\n    </form>\n</td></tr>");
            proof {
                let next = topics@.subrange(0, i + 1);
                assert(next.drop_last() =~= topics@.subrange(0, i as int));
                assert(next.last() == topics@[i as int]);
            }
            i = i + 1;
        }
        assert(topics@.subrange(0, topics@.len() as int) =~= topics@);
    }
    let mut out = to_owned_string(TOPIC_SECTION_START);
    push_str(&mut out, rows.as_str());
    push_str(&mut out, TOPIC_SECTION_FORM);
    push_str(&mut out, redirect);
    push_str(&mut out, TOPIC_SECTION_END);
    assert(out@ =~= topic_section_html(topics@, redirect@));
    out
}


/// The options of a topic's score picker: 0 (chosen), 1 and 2.
pub const SCORE_OPTIONS: &'static str = "<option value=\"0\" selected>0</option><option value=\"1\">1</option><option value=\"2\">2</option>";

/// One topic's score picker on the journal form.
pub open spec fn score_picker_html(topic: JournalTopicRow) -> Seq<char> {
    "<div class=\"topic-picker\" data-topic=\""@ + topic.id@ + "\"><label for=\"score-"@ + topic.id@ + "\">"@ + escape(
        topic.name@,
    ) + "</label><select id=\"score-"@ + topic.id@ + "\" name=\"score_"@ + topic.id@ + "\" data-topic-select=\""@
        + topic.id@ + "\">"@ + SCORE_OPTIONS@ + "</select></div>"@
}

/// The score pickers of the journal form, one line each.
pub open spec fn score_pickers_html(topics: Seq<JournalTopicRow>) -> Seq<char>
    decreases topics.len(),
{
    if topics.len() == 0 {
        Seq::empty()
    } else if topics.len() == 1 {
        score_picker_html(topics[0])
    } else {
        score_pickers_html(topics.drop_last()) + "\n"@ + score_picker_html(topics.last())
    }
}

/// The score part of the journal form: the pickers, or a note when there
/// is no topic yet.
pub open spec fn score_inputs_html(topics: Seq<JournalTopicRow>) -> Seq<char> {
    if topics.len() == 0 {
        "<p class=\"section-note\">暂无主题，请先添加主题后再录入分值。</p>"@
    } else {
        "<div class=\"topic-grid\">"@ + score_pickers_html(topics) + "</div>"@
    }
}

/// The journal section around its table rows: the table, the form with a
/// score picker per topic, and the form's script.
pub open spec fn journal_section_html(rows: Seq<char>, redirect: Seq<char>, topics: Seq<JournalTopicRow>) -> Seq<char> {
    JOURNAL_SECTION_START@ + rows + JOURNAL_SECTION_FORM@ + redirect + JOURNAL_SECTION_FIELDS@ + score_inputs_html(topics)
        + JOURNAL_SECTION_END@
}

pub const JOURNAL_SECTION_START: &'static str = "<section class=\"admin\">\n    <h2>期刊参考</h2>\n    <p class=\"section-note\">该列表支撑稿件评估模块的期刊推荐逻辑。</p>\n    <table>\n        <thead>\n            <tr><th>期刊名称</th><th>参考标记</th><th>低区间阈值</th><th>备注</th><th>主题分值</th><th>操作</th></tr>\n        </thead>\n        <tbody>\n            ";

pub const JOURNAL_SECTION_FORM: &'static str = "\n        </tbody>\n    </table>\n    <form id=\"journal-form\" method=\"post\" action=\"/dashboard/journal-references\">\n        <input type=\"hidden\" name=\"redirect\" value=\"";

pub const JOURNAL_SECTION_FIELDS: &'static str = "\">\n        <h3>新增或更新期刊</h3>\n        <div class=\"field\">\n            <label for=\"journal-name\">期刊名称</label>\n            <input id=\"journal-name\" name=\"journal_name\" required>\n        </div>\n        <div class=\"field\">\n            <label for=\"journal-mark\">参考标记（可选）</label>\n            <input id=\"journal-mark\" name=\"reference_mark\" placeholder=\"例如：Level 3 或 2/3\">\n        </div>\n        <div class=\"field\">\n            <label for=\"journal-low\">低区间阈值</label>\n            <input id=\"journal-low\" name=\"low_bound\" required placeholder=\"例如：37.5\">\n        </div>\n        <div class=\"field\">\n            <label for=\"journal-notes\">备注（可选）</label>\n            <input id=\"journal-notes\" name=\"notes\" placeholder=\"简要说明\">\n        </div>\n        ";

pub const JOURNAL_SECTION_END: &'static str = "\n        <div class=\"journal-form-actions\">\n            <button type=\"submit\">保存期刊</button>\n            <button type=\"button\" class=\"secondary\" data-clear-journal-form>清空表单</button>\n        </div>\n    </form>\n</section>\n<script>\ndocument.addEventListener('DOMContentLoaded', function () {\n    const form = document.getElementById('journal-form');\n    if (!form) { return; }\n    const selects = Array.from(form.querySelectorAll('[data-topic-select]'));\n\n    function updateHighlight(select) {\n        const wrapper = select.closest('.topic-picker');\n        if (!wrapper) { return; }\n        const value = parseInt(select.value || '0', 10);\n        if (!Number.isNaN(value) && value > 0) {\n            wrapper.classList.add('active');\n        } else {\n            wrapper.classList.remove('active');\n        }\n    }\n\n    selects.forEach((select) => {\n        updateHighlight(select);\n        select.addEventListener('change', () => updateHighlight(select));\n    });\n\n    document.querySelectorAll('[data-load-journal]').forEach((button) => {\n        button.addEventListener('click', () => {\n            const payloadRaw = button.getAttribute('data-load-journal');\n            if (!payloadRaw) { return; }\n\n            let data;\n            try {\n                data = JSON.parse(payloadRaw);\n            } catch (error) {\n                console.error('Failed to parse journal payload', error);\n                return;\n            }\n\n            const nameInput = form.querySelector('#journal-name');\n            const markInput = form.querySelector('#journal-mark');\n            const lowInput = form.querySelector('#journal-low');\n            const notesInput = form.querySelector('#journal-notes');\n\n            if (nameInput) { nameInput.value = data.journal_name ? String(data.journal_name) : ''; }\n            if (markInput) { markInput.value = data.reference_mark ? String(data.reference_mark) : ''; }\n            if (lowInput) {\n                if (data.low_bound === null || data.low_bound === undefined || data.low_bound === '') {\n                    lowInput.value = '';\n                } else {\n                    lowInput.value = String(data.low_bound);\n                }\n            }\n            if (notesInput) { notesInput.value = data.notes ? String(data.notes) : ''; }\n\n            const scoreMap = (data.scores && typeof data.scores === 'object') ? data.scores : {};\n            selects.forEach((select) => {\n                const topicId = select.getAttribute('data-topic-select');\n                const rawValue = topicId && Object.prototype.hasOwnProperty.call(scoreMap, topicId)\n                    ? scoreMap[topicId]\n                    : 0;\n                select.value = String(rawValue ?? 0);\n                select.dispatchEvent(new Event('change'));\n            });\n\n            if (nameInput) { nameInput.focus(); }\n        });\n    });\n\n    const resetButton = form.querySelector('[data-clear-journal-form]');\n    if (resetButton) {\n        resetButton.addEventListener('click', () => {\n            form.reset();\n            selects.forEach((select) => {\n                select.value = '0';\n                select.dispatchEvent(new Event('change'));\n            });\n        });\n    }\n});\n</script>\n";

/// Renders the journal section; `rows` is the table body already rendered.
#[verifier::rlimit(40)]
pub fn render_journal_section(rows: &str, redirect: &str, topics: &[JournalTopicRow]) -> (res: String)
    ensures
        res@ == journal_section_html(rows@, redirect@, topics@),
{
    let mut inputs = String::new();
    if topics.len() == 0 {
        push_str(&mut inputs, "<p class=\"section-note\">暂无主题，请先添加主题后再录入分值。</p>");
    } else {
        let mut pickers = String::new();
        let mut i: usize = 0;
        while i < topics.len()
            invariant
                i <= topics@.len(),
                pickers@ == score_pickers_html(topics@.subrange(0, i as int)),
            decreases topics.len() - i,
        {
            let topic = &topics[i];
            if i > 0 {
                push_str(&mut pickers, "\n");
            }
            push_str(&mut pickers, "<div class=\"topic-picker\" data-topic=\"");
            push_str(&mut pickers, topic.id.as_str());
            push_str(&mut pickers, "\"><label for=\"score-");
            push_str(&mut pickers, topic.id.as_str());
            push_str(&mut pickers, "\">");
            let name = escape_html(topic.name.as_str());
            push_str(&mut pickers, name.as_str());
            push_str(&mut pickers, "</label><select id=\"score-");
            push_str(&mut pickers, topic.id.as_str());
            push_str(&mut pickers, "\" name=\"score_");
            push_str(&mut pickers, topic.id.as_str());
            push_str(&mut pickers, "\" data-topic-select=\"");
            push_str(&mut pickers, topic.id.as_str());
            push_str(&mut pickers, "\">");
            push_str(&mut pickers, SCORE_OPTIONS);
            push_str(&mut pickers, "</select></div>");
            proof {
                let next = topics@.subrange(0, i + 1);
                assert(next.drop_last() =~= topics@.subrange(0, i as int));
                assert(next.last() == topics@[i as int]);
                if i == 0 {
                    assert(next[0] == topics@[0]);
                }
            }
            i = i + 1;
        }
        assert(topics@.subrange(0, topics@.len() as int) =~= topics@);
        push_str(&mut inputs, "<div class=\"topic-grid\">");
        push_str(&mut inputs, pickers.as_str());
        push_str(&mut inputs, "</div>");
    }
    let mut out = to_owned_string(JOURNAL_SECTION_START);
    push_str(&mut out, rows);
    push_str(&mut out, JOURNAL_SECTION_FORM);
    push_str(&mut out, redirect);
    push_str(&mut out, JOURNAL_SECTION_FIELDS);
    push_str(&mut out, inputs.as_str());
    push_str(&mut out, JOURNAL_SECTION_END);
    assert(out@ =~= journal_section_html(rows@, redirect@, topics@));
    out
}


/// A journal of the reference table as its row shows it. The threshold and
/// the row's JSON payload come already written out (they hold a floating
/// point number); the topic scores are the names and scores to list.
#[derive(Debug, Clone)]
pub struct JournalRowView {
    pub id: String,
    pub journal_name: String,
    pub reference_mark: Option<String>,
    pub low_bound_text: String,
    pub notes: Option<String>,
    pub topic_scores: Vec<(String, i16)>,
    pub payload_json: String,
}

/// One topic score in a journal's row: the escaped topic name, `：`, the
/// score.
pub open spec fn topic_score_html(score: (String, i16)) -> Seq<char> {
    escape(score.0@) + "："@ + signed_decimal(score.1 as int)
}

/// The topic scores of a journal's row, separated by `<br>`.
pub open spec fn topic_scores_html(scores: Seq<(String, i16)>) -> Seq<char>
    decreases scores.len(),
{
    if scores.len() == 0 {
        Seq::empty()
    } else if scores.len() == 1 {
        topic_score_html(scores[0])
    } else {
        topic_scores_html(scores.drop_last()) + "<br>"@ + topic_score_html(scores.last())
    }
}

/// The scores cell: the scores, or a dash when there is none.
pub open spec fn scores_cell(scores: Seq<(String, i16)>) -> Seq<char> {
    if scores.len() == 0 {
        "—"@
    } else {
        topic_scores_html(scores)
    }
}

/// A journal's row: name, mark, threshold, notes, scores, and the buttons
/// that load it into the form (with its escaped JSON payload) or delete it.
pub open spec fn journal_row_html(row: JournalRowView, redirect: Seq<char>) -> Seq<char> {
    "<tr><td>"@ + escape(row.journal_name@) + "</td><td>"@ + cell_or_dash(row.reference_mark) + "</td><td>"@
        + row.low_bound_text@ + "</td><td>"@ + cell_or_dash(row.notes) + "</td><td>"@ + scores_cell(
        row.topic_scores@,
    ) + JOURNAL_ROW_ACTIONS@ + escape(row.payload_json@) + JOURNAL_ROW_DELETE@ + row.id@ + JOURNAL_ROW_REDIRECT@
        + redirect + JOURNAL_ROW_END@
}

/// The rows of the given journals, in order.
pub open spec fn journal_rows_html(rows: Seq<JournalRowView>, redirect: Seq<char>) -> Seq<char>
    decreases rows.len(),
{
    if rows.len() == 0 {
        Seq::empty()
    } else {
        journal_rows_html(rows.drop_last(), redirect) + journal_row_html(rows.last(), redirect)
    }
}

/// The body of the reference table: the rows, or a note when there is no
/// journal yet.
pub open spec fn journal_table_body(rows: Seq<JournalRowView>, redirect: Seq<char>) -> Seq<char> {
    if rows.len() == 0 {
        "<tr><td colspan=\"6\">尚未添加期刊参考。</td></tr>"@
    } else {
        journal_rows_html(rows, redirect)
    }
}

pub const JOURNAL_ROW_ACTIONS: &'static str = "</td><td>\n    <div class=\"action-stack\">\n        <button type=\"button\" class=\"secondary\" data-load-journal=\"";

pub const JOURNAL_ROW_DELETE: &'static str = "\">载入表单</button>\n        <form method=\"post\" action=\"/dashboard/journal-references/delete\" onsubmit=\"return confirm('确定删除该期刊参考？');\">\n            <input type=\"hidden\" name=\"id\" value=\"";

pub const JOURNAL_ROW_REDIRECT: &'static str = "\">\n            <input type=\"hidden\" name=\"redirect\" value=\"";

pub const JOURNAL_ROW_END: &'static str = "\">\n            <button type=\"submit\" class=\"danger\">删除</button>\n        </form>\n    </div>\n</td></tr>";

fn render_scores_cell(scores: &Vec<(String, i16)>) -> (res: String)
    ensures
        res@ == scores_cell(scores@),
{
    if scores.len() == 0 {
        return to_owned_string("—");
    }
    let mut out = String::new();
    let mut i: usize = 0;
    while i < scores.len()
        invariant
            i <= scores@.len(),
            out@ == topic_scores_html(scores@.subrange(0, i as int)),
        decreases scores.len() - i,
    {
        if i > 0 {
            push_str(&mut out, "<br>");
        }
        let name = escape_html(scores[i].0.as_str());
        push_str(&mut out, name.as_str());
        push_str(&mut out, "：");
        push_signed_decimal(&mut out, scores[i].1 as i64);
        proof {
            let next = scores@.subrange(0, i + 1);
            assert(next.drop_last() =~= scores@.subrange(0, i as int));
            assert(next.last() == scores@[i as int]);
            if i == 0 {
                assert(next[0] == scores@[0]);
            }
        }
        i = i + 1;
    }
    assert(scores@.subrange(0, scores@.len() as int) =~= scores@);
    out
}

fn render_journal_row(out: &mut String, row: &JournalRowView, redirect: &str)
    ensures
        final(out)@ == old(out)@ + journal_row_html(*row, redirect@),
{
    let ghost start = out@;
    push_str(out, "<tr><td>");
    let name = escape_html(row.journal_name.as_str());
    push_str(out, name.as_str());
    push_str(out, "</td><td>");
    let mark = render_cell_or_dash(&row.reference_mark);
    push_str(out, mark.as_str());
    push_str(out, "</td><td>");
    push_str(out, row.low_bound_text.as_str());
    push_str(out, "</td><td>");
    let notes = render_cell_or_dash(&row.notes);
    push_str(out, notes.as_str());
    push_str(out, "</td><td>");
    let scores = render_scores_cell(&row.topic_scores);
    push_str(out, scores.as_str());
    push_str(out, JOURNAL_ROW_ACTIONS);
    let payload = escape_html(row.payload_json.as_str());
    push_str(out, payload.as_str());
    push_str(out, JOURNAL_ROW_DELETE);
    push_str(out, row.id.as_str());
    push_str(out, JOURNAL_ROW_REDIRECT);
    push_str(out, redirect);
    push_str(out, JOURNAL_ROW_END);
    assert(out@ =~= start + journal_row_html(*row, redirect@));
}

/// Renders the body of the journal reference table.
pub fn render_journal_rows(rows: &[JournalRowView], redirect: &str) -> (res: String)
    ensures
        res@ == journal_table_body(rows@, redirect@),
{
    if rows.len() == 0 {
        return to_owned_string("<tr><td colspan=\"6\">尚未添加期刊参考。</td></tr>");
    }
    let mut out = String::new();
    let mut i: usize = 0;
    while i < rows.len()
        invariant
            i <= rows@.len(),
            out@ == journal_rows_html(rows@.subrange(0, i as int), redirect@),
        decreases rows.len() - i,
    {
        render_journal_row(&mut out, &rows[i], redirect);
        proof {
            let next = rows@.subrange(0, i + 1);
            assert(next.drop_last() =~= rows@.subrange(0, i as int));
            assert(next.last() == rows@[i as int]);
        }
        i = i + 1;
    }
    assert(rows@.subrange(0, rows@.len() as int) =~= rows@);
    out
}


/// A journal's score for a topic, ids in text form.
#[derive(Debug, Clone)]
pub struct TopicScoreRow {
    pub journal_id: String,
    pub topic_id: String,
    pub score: i16,
}

/// The name of the topic with id `id`: the last topic listed with it.
pub open spec fn topic_name_of(topics: Seq<JournalTopicRow>, id: Seq<char>) -> Option<String>
    decreases topics.len(),
{
    if topics.len() == 0 {
        None
    } else if topics.last().id@ == id {
        Some(topics.last().name)
    } else {
        topic_name_of(topics.drop_last(), id)
    }
}

/// `a` comes before `b` or equals it, comparing characters by code point,
/// as `String`'s order does.
pub open spec fn name_le(a: Seq<char>, b: Seq<char>) -> bool
    decreases a.len(),
{
    if a.len() == 0 {
        true
    } else if b.len() == 0 {
        false
    } else if a[0] != b[0] {
        (a[0] as u32) < (b[0] as u32)
    } else {
        name_le(a.drop_first(), b.drop_first())
    }
}

/// Inserts an entry into entries sorted by topic name, after every entry
/// whose name does not come after its own.
pub open spec fn insert_by_name(sorted: Seq<(String, String, i16)>, e: (String, String, i16)) -> Seq<(String, String, i16)>
    decreases sorted.len(),
{
    if sorted.len() == 0 {
        seq![e]
    } else if name_le(sorted.last().1@, e.1@) {
        sorted.push(e)
    } else {
        insert_by_name(sorted.drop_last(), e).push(sorted.last())
    }
}

/// The scores of journal `journal` whose topic is known, as (topic id,
/// topic name, score), sorted by topic name; scores with equal names keep
/// their order.
pub open spec fn journal_topic_entries(topics: Seq<JournalTopicRow>, scores: Seq<TopicScoreRow>, journal: Seq<char>) -> Seq<(String, String, i16)>
    decreases scores.len(),
{
    if scores.len() == 0 {
        Seq::empty()
    } else {
        let before = journal_topic_entries(topics, scores.drop_last(), journal);
        let s = scores.last();
        if s.journal_id@ == journal && topic_name_of(topics, s.topic_id@) is Some {
            insert_by_name(before, (s.topic_id, topic_name_of(topics, s.topic_id@)->0, s.score))
        } else {
            before
        }
    }
}

fn lookup_topic_name(topics: &[JournalTopicRow], id: &str) -> (res: Option<String>)
    ensures
        match res {
            Some(n) => topic_name_of(topics@, id@) == Some(n),
            None => topic_name_of(topics@, id@) is None,
        },
{
    let mut k: usize = topics.len();
    assert(topics@.take(topics@.len() as int) =~= topics@);
    while k > 0
        invariant
            k <= topics@.len(),
            topic_name_of(topics@, id@) == topic_name_of(topics@.take(k as int), id@),
        decreases k,
    {
        assert(topics@.take(k as int).drop_last() =~= topics@.take(k - 1));
        if str_eq(topics[k - 1].id.as_str(), id) {
            return Some(topics[k - 1].name.clone());
        }
        k = k - 1;
    }
    None
}

fn names_le(a: &str, b: &str) -> (res: bool)
    ensures
        res == name_le(a@, b@),
{
    let x = chars_of(a);
    let y = chars_of(b);
    let mut i: usize = 0;
    assert(x@.skip(0) =~= x@);
    assert(y@.skip(0) =~= y@);
    while i < x.len() && i < y.len() && x[i] == y[i]
        invariant
            i <= x@.len(),
            i <= y@.len(),
            x@ == a@,
            y@ == b@,
            name_le(a@, b@) == name_le(x@.skip(i as int), y@.skip(i as int)),
        decreases x.len() - i,
    {
        assert(x@.skip(i as int).drop_first() =~= x@.skip(i + 1));
        assert(y@.skip(i as int).drop_first() =~= y@.skip(i + 1));
        i = i + 1;
    }
    if i == x.len() {
        true
    } else if i == y.len() {
        false
    } else {
        (x[i] as u32) < (y[i] as u32)
    }
}

fn insert_entry(sorted: &mut Vec<(String, String, i16)>, e: (String, String, i16))
    ensures
        final(sorted)@ == insert_by_name(old(sorted)@, e),
    decreases old(sorted)@.len(),
{
    if sorted.len() == 0 {
        sorted.push(e);
        return;
    }
    let n = sorted.len();
    if names_le(sorted[n - 1].1.as_str(), e.1.as_str()) {
        sorted.push(e);
    } else {
        let last = sorted.pop().unwrap();
        assert(sorted@ =~= old(sorted)@.drop_last());
        insert_entry(sorted, e);
        sorted.push(last);
    }
}

/// The scores of one journal whose topic is known, with the topic's name,
/// sorted by topic name (scores with equal names keep their order).
pub fn journal_topic_scores(topics: &[JournalTopicRow], scores: &[TopicScoreRow], journal_id: &str) -> (res: Vec<(String, String, i16)>)
    ensures
        res@ == journal_topic_entries(topics@, scores@, journal_id@),
{
    let mut out: Vec<(String, String, i16)> = Vec::new();
    let mut i: usize = 0;
    while i < scores.len()
        invariant
            i <= scores@.len(),
            out@ == journal_topic_entries(topics@, scores@.take(i as int), journal_id@),
        decreases scores.len() - i,
    {
        assert(scores@.take(i + 1).drop_last() =~= scores@.take(i as int));
        let s = &scores[i];
        if str_eq(s.journal_id.as_str(), journal_id) {
            match lookup_topic_name(topics, s.topic_id.as_str()) {
                Some(name) => {
                    insert_entry(&mut out, (s.topic_id.clone(), name, s.score));
                },
                None => {},
            }
        }
        i = i + 1;
    }
    assert(scores@.take(scores@.len() as int) =~= scores@);
    out
}

} // verus!
