//! The pages of the tools: the header, the new-task form with its upload
//! widget, the history tab and the client scripts of each tool.

use vstd::prelude::*;

use crate::auth::AuthUser;
use crate::history_ui::{history_panel_html, render_history_panel};
use crate::templates::{admin_link_html, render_tool_page, tool_page_html, ToolAdminLink, ToolPageLayout, TOOL_PAGE_BASE_STYLES};
use crate::text::{escape, escape_html, join, push_str, to_owned_string, views_of};
use crate::upload_ui::{render_upload_widget, upload_widget_html, UploadWidgetConfig, UPLOAD_WIDGET_SCRIPT, UPLOAD_WIDGET_STYLES};

verus! {

/// The module-settings link of a tool page, shown to administrators.
pub open spec fn module_admin_link(is_admin: bool, href: Seq<char>) -> Seq<char> {
    if is_admin {
        "<a class=\"admin-link\" href=\""@ + href + "\">"@ + "模块管理"@ + "</a>"@
    } else {
        Seq::empty()
    }
}

fn module_admin_option(is_admin: bool, href: &'static str) -> (res: Option<ToolAdminLink<'static>>)
    ensures
        admin_link_html(res) == module_admin_link(is_admin, href@),
{
    if is_admin {
        Some(ToolAdminLink { href, label: "模块管理" })
    } else {
        None
    }
}

/// The note under a tool's heading: who is signed in, then what the tool does.
pub open spec fn signed_in_note(username: Seq<char>, tail: Seq<char>) -> Seq<char> {
    "当前登录：<strong>"@ + escape(username) + "</strong>"@ + tail
}

fn render_signed_in_note(username: &str, tail: &str) -> (res: String)
    ensures
        res@ == signed_in_note(username@, tail@),
{
    let mut out = to_owned_string("当前登录：<strong>");
    let name = escape_html(username);
    push_str(&mut out, name.as_str());
    push_str(&mut out, "</strong>");
    push_str(&mut out, tail);
    assert(out@ =~= signed_in_note(username@, tail@));
    out
}

/// A script element holding the given code.
pub open spec fn inline_script(code: Seq<char>) -> Seq<char> {
    "<script>\n"@ + code + "\n</script>"@
}

fn render_inline_script(code: &str) -> (res: String)
    ensures
        res@ == inline_script(code@),
{
    let mut out = to_owned_string("<script>\n");
    push_str(&mut out, code);
    push_str(&mut out, "\n</script>");
    assert(out@ =~= inline_script(code@));
    out
}

/// The form of the summarizer page before its upload widget.
pub const SUMMARIZER_FORM_HEAD: &'static str = "                <section class=\"panel\">\n                    <h2>发起新任务</h2>\n                    <form id=\"summarizer-form\">\n                        ";
/// The rest of the summarizer page's form.
pub const SUMMARIZER_FORM_TAIL: &'static str = "\n                        <label for=\"document-type\">文档类型</label>\n                        <select id=\"document-type\" name=\"document_type\">\n                            <option value=\"research\">科研论文</option>\n                            <option value=\"other\">其他文档</option>\n                        </select>\n                        <label><input type=\"checkbox\" name=\"translate\" id=\"translate\" checked> 生成中文译文</label>\n                        <button type=\"submit\">开始处理</button>\n                    </form>\n                    <div id=\"submission-status\" class=\"status\"></div>\n                </section>\n                <section class=\"panel jobs-list\">\n                    <h2>任务进度</h2>\n                    <div id=\"job-status\"></div>\n                </section>\n";
/// The client script of the summarizer page.
pub const SUMMARIZER_SCRIPT: &'static str = "const form = document.getElementById('summarizer-form');\nconst statusBox = document.getElementById('submission-status');\nconst jobStatus = document.getElementById('job-status');\nconst fileInput = document.getElementById('files');\nlet activeJobId = null;\nlet statusTimer = null;\n\nform.addEventListener('submit', async (event) => {\n    event.preventDefault();\n\n    if (!fileInput || fileInput.files.length === 0) {\n        statusBox.innerHTML = '<span style=\"color: #dc2626;\">请至少选择一个文件。</span>';\n        return;\n    }\n\n    if (fileInput.files.length > 100) {\n        statusBox.innerHTML = '<span style=\"color: #dc2626;\">文件数量超过限制（最多 100 个）。</span>';\n        return;\n    }\n\n    statusBox.textContent = '正在上传文件...';\n    const data = new FormData(form);\n\n    try {\n        const response = await fetch('/tools/summarizer/jobs', {\n            method: 'POST',\n            body: data,\n        });\n\n        if (!response.ok) {\n            const payload = await response.json().catch(() => ({ message: '任务提交失败。' }));\n            statusBox.innerHTML = `<span style=\"color: #dc2626;\">${payload.message || '任务提交失败。'}</span>`;\n            return;\n        }\n\n        const payload = await response.json();\n        activeJobId = payload.job_id;\n        statusBox.innerHTML = '<span style=\"color: #16a34a;\">任务已入队，正在监控进度...</span>';\n        form.reset();\n        if (fileInput) {\n            fileInput.value = '';\n            fileInput.dispatchEvent(new Event('change'));\n        }\n        pollStatus();\n    } catch (err) {\n        console.error(err);\n        statusBox.innerHTML = '<span style=\"color: #dc2626;\">提交任务时发生异常。</span>';\n    }\n});\n\nfunction pollStatus() {\n    if (!activeJobId) return;\n\n    clearTimeout(statusTimer);\n    fetch(`/api/summarizer/jobs/${activeJobId}`).then(async (response) => {\n        if (!response.ok) {\n            jobStatus.innerHTML = '<p class=\"note\">无法加载任务状态，请刷新页面。</p>';\n            return;\n        }\n\n        const payload = await response.json();\n        renderStatus(payload);\n\n        if (payload.status === 'completed' || payload.status === 'failed') {\n            activeJobId = null;\n            return;\n        }\n\n        statusTimer = setTimeout(pollStatus, 4000);\n    }).catch((err) => {\n        console.error(err);\n        jobStatus.innerHTML = '<p class=\"note\">无法加载任务状态，请刷新页面。</p>';\n    });\n}\n\nfunction translateStatus(status) {\n    const map = {\n        pending: '待处理',\n        processing: '处理中',\n        completed: '已完成',\n        failed: '已失败',\n        queued: '排队中',\n    };\n    return map[status] || status;\n}\n\nfunction renderStatus(payload) {\n    let docRows = payload.documents.map((doc) => {\n        const detail = doc.status_detail ? `<div class=\"note\">${doc.status_detail}</div>` : '';\n        const error = doc.error_message ? `<div class=\"note\">${doc.error_message}</div>` : '';\n        const statusLabel = translateStatus(doc.status);\n        return `<tr><td>${doc.original_filename}</td><td>${statusLabel}</td></tr>${detail ? `<tr><td colspan=2>${detail}</td></tr>` : ''}${error ? `<tr><td colspan=2>${error}</td></tr>` : ''}`;\n    }).join('');\n    if (!docRows) {\n        docRows = '<tr><td colspan=\"2\">暂无文件记录。</td></tr>';\n    }\n\n    const combinedSummary = payload.combined_summary_url ? `<a href=\"${payload.combined_summary_url}\">下载汇总摘要</a>` : '';\n    const combinedTranslation = payload.combined_translation_url ? `<a href=\"${payload.combined_translation_url}\">下载汇总译文</a>` : '';\n    const combinedBlock = combinedSummary || combinedTranslation ? `<p class=\"downloads\">${combinedSummary} ${combinedTranslation}</p>` : '';\n    const errorBlock = payload.error_message ? `<p class=\"note\">${payload.error_message}</p>` : '';\n    const detailBlock = payload.status_detail ? `<p class=\"note\">${payload.status_detail}</p>` : '';\n    const jobStatusLabel = translateStatus(payload.status);\n\n    jobStatus.innerHTML = `\n        <div class=\"status\">\n            <p><strong>任务状态：</strong> ${jobStatusLabel}</p>\n            ${detailBlock}\n            ${errorBlock}\n            <table>\n                <thead><tr><th>文件名</th><th>状态</th></tr></thead>\n                <tbody>${docRows}</tbody>\n            </table>\n            ${combinedBlock}\n        </div>\n    `;\n}\n";

/// The upload widget of the summarizer page.
pub open spec fn summarizer_upload_config() -> UploadWidgetConfig<'static> {
    UploadWidgetConfig {
        widget_id: "summarizer-upload",
        input_id: "files",
        field_name: "files",
        label: "上传文件",
        description: Some("支持上传 PDF、DOCX 或 TXT 文档。"),
        note: Some("每个任务最多可提交 100 个文件。"),
        accept: Some(".pdf,.docx,.txt"),
        multiple: true,
        max_files: Some(100usize),
    }
}

/// The summarizer page of a signed-in user, with the given footer and the
/// history tab's stylesheet and script.
pub open spec fn summarizer_page_html(user: AuthUser, footer: Seq<char>, history_styles: Seq<char>, history_script: Seq<char>) -> Seq<char> {
    tool_page_html(
        "文档摘要与翻译 | 张圆教授课题组 AI 工具箱"@,
        join(seq![TOOL_PAGE_BASE_STYLES@, history_styles, UPLOAD_WIDGET_STYLES@], "\n"@),
        "文档摘要与翻译"@,
        module_admin_link(user.is_admin, "/dashboard/modules/summarizer"@),
        signed_in_note(user.username@, "。上传 PDF、DOCX 或 TXT 文件生成结构化摘要，并可输出中文译文。"@),
        "summarizer"@,
        "新任务"@,
        "历史记录"@,
        SUMMARIZER_FORM_HEAD@ + upload_widget_html(summarizer_upload_config()) + SUMMARIZER_FORM_TAIL@,
        history_panel_html("summarizer"@),
        footer,
        join(seq![UPLOAD_WIDGET_SCRIPT@, inline_script(SUMMARIZER_SCRIPT@), inline_script(history_script)], "\n"@),
    )
}

/// Renders the summarizer page of a signed-in user.
pub fn render_summarizer_page(user: &AuthUser, footer_html: String, history_styles: &str, history_script: &str) -> (res: String)
    ensures
        res@ == summarizer_page_html(*user, footer_html@, history_styles@, history_script@),
{
    let username = escape_html(user.username.as_str());
    let note_html = render_signed_in_note(user.username.as_str(), "。上传 PDF、DOCX 或 TXT 文件生成结构化摘要，并可输出中文译文。");
    let config = UploadWidgetConfig::new("summarizer-upload", "files", "files", "上传文件").with_description("支持上传 PDF、DOCX 或 TXT 文档。").with_multiple(Some(100usize)).with_note("每个任务最多可提交 100 个文件。").with_accept(".pdf,.docx,.txt");
    assert(config == summarizer_upload_config());
    let widget = render_upload_widget(&config);
    let mut new_tab_html = to_owned_string(SUMMARIZER_FORM_HEAD);
    push_str(&mut new_tab_html, widget.as_str());
    push_str(&mut new_tab_html, SUMMARIZER_FORM_TAIL);
    let history_panel_html = render_history_panel("summarizer");
    let extra_style_blocks = vec![to_owned_string(history_styles), to_owned_string(UPLOAD_WIDGET_STYLES)];
    let body_scripts = vec![to_owned_string(UPLOAD_WIDGET_SCRIPT), render_inline_script(SUMMARIZER_SCRIPT), render_inline_script(history_script)];
    assert(seq![TOOL_PAGE_BASE_STYLES@] + views_of(extra_style_blocks@) =~= seq![TOOL_PAGE_BASE_STYLES@, history_styles@, UPLOAD_WIDGET_STYLES@]);
    assert(views_of(body_scripts@) =~= seq![UPLOAD_WIDGET_SCRIPT@, inline_script(SUMMARIZER_SCRIPT@), inline_script(history_script@)]);
    let layout = ToolPageLayout {
        meta_title: "文档摘要与翻译 | 张圆教授课题组 AI 工具箱",
        page_heading: "文档摘要与翻译",
        username: username.as_str(),
        note_html,
        tab_group: "summarizer",
        new_tab_label: "新任务",
        new_tab_html,
        history_tab_label: "历史记录",
        history_panel_html,
        admin_link: module_admin_option(user.is_admin, "/dashboard/modules/summarizer"),
        footer_html,
        extra_style_blocks,
        body_scripts,
    };
    render_tool_page(layout)
}

/// The form of the grader page before its upload widget.
pub const GRADER_FORM_HEAD: &'static str = "                <section class=\"panel\">\n                    <h2>提交稿件</h2>\n                    <form id=\"grader-form\">\n                        ";
/// The rest of the grader page's form.
pub const GRADER_FORM_TAIL: &'static str = "\n                        <button type=\"submit\">开始评估</button>\n                    </form>\n                    <div id=\"status-box\" class=\"status-box\">等待上传。</div>\n                </section>\n                <section id=\"results-section\" class=\"results\" style=\"display:none;\">\n                    <h2>评估结果</h2>\n                    <div id=\"score-summary\"></div>\n                    <div id=\"keyword-summary\"></div>\n                    <div id=\"recommendations\"></div>\n                </section>\n";
/// The client script of the grader page.
pub const GRADER_SCRIPT: &'static str = "const form = document.getElementById('grader-form');\nconst fileInput = document.getElementById('grader-file');\nconst statusBox = document.getElementById('status-box');\nconst resultsSection = document.getElementById('results-section');\nconst scoreSummary = document.getElementById('score-summary');\nconst keywordSummary = document.getElementById('keyword-summary');\nconst recommendationsBox = document.getElementById('recommendations');\n\nlet pollTimer = null;\n\nconst resetResults = () => {\n    resultsSection.style.display = 'none';\n    scoreSummary.innerHTML = '';\n    keywordSummary.innerHTML = '';\n    recommendationsBox.innerHTML = '';\n};\n\nconst renderRecommendations = (items) => {\n    if (!items || items.length === 0) {\n        recommendationsBox.innerHTML = '<p class=\"note\">暂无匹配的期刊推荐。</p>';\n        return;\n    }\n    const rows = items.map((item) => {\n        const mark = item.reference_mark ? item.reference_mark : '—';\n        return `<tr><td>${item.journal_name}</td><td>${mark}</td><td>${item.match_score.toFixed(1)}` +\n               `</td><td>${item.adjusted_threshold.toFixed(2)}</td><td>${item.low_bound.toFixed(2)}</td></tr>`;\n    }).join('');\n    recommendationsBox.innerHTML = `\n        <h3>期刊推荐</h3>\n        <table>\n            <thead><tr><th>期刊</th><th>参考标记</th><th>匹配得分</th><th>调整后阈值</th><th>原始阈值</th></tr></thead>\n            <tbody>${rows}</tbody>\n        </table>`;\n};\n\nconst renderKeywords = (main, peripherals) => {\n    const mainText = main ? `<strong>主要主题：</strong> ${main}` : '<strong>主要主题：</strong> 未识别';\n    const peripheralText = peripherals && peripherals.length > 0 ? peripherals.join('，') : '无';\n    keywordSummary.innerHTML = `\n        <h3>主题分析</h3>\n        <p>${mainText}</p>\n        <p><strong>相关主题：</strong> ${peripheralText}</p>\n    `;\n};\n\nconst renderScore = (data) => {\n    if (typeof data.iqm_score !== 'number') {\n        scoreSummary.innerHTML = '<p class=\"note\">尚未产生评分。</p>';\n        return;\n    }\n    const attempts = data.attempts_run ?? 0;\n    const valid = data.valid_runs ?? 0;\n    const justification = data.justification ? `<p><strong>模型说明：</strong> ${data.justification}</p>` : '';\n    const decision = data.decision_reason ? `<p class=\"note\">${data.decision_reason}</p>` : '';\n    scoreSummary.innerHTML = `\n        <h3>综合评分</h3>\n        <p><strong>IQM 评分：</strong> ${data.iqm_score.toFixed(1)}</p>\n        <p class=\"note\">有效结果 ${valid} 次，共尝试 ${attempts} 次。</p>\n        ${justification}\n        ${decision}\n    `;\n};\n\nconst updateStatus = (payload) => {\n    statusBox.textContent = payload;\n};\n\nconst handleStatusPayload = (payload) => {\n    updateStatus(payload.status_detail || `当前状态：${payload.status}`);\n\n    if (payload.status === 'completed') {\n        renderScore(payload);\n        renderKeywords(payload.keyword_main, payload.keyword_peripherals);\n        renderRecommendations(payload.recommendations);\n        resultsSection.style.display = 'block';\n        if (pollTimer) {\n            clearInterval(pollTimer);\n            pollTimer = null;\n        }\n    } else if (payload.status === 'failed') {\n        const message = payload.error_message || '评估失败，请稍后重试。';\n        statusBox.textContent = message;\n        if (pollTimer) {\n            clearInterval(pollTimer);\n            pollTimer = null;\n        }\n    }\n};\n\nconst pollJob = (url) => {\n    pollTimer = setInterval(async () => {\n        try {\n            const res = await fetch(url, { headers: { 'Accept': 'application/json' } });\n            if (!res.ok) {\n                throw new Error('状态查询失败');\n            }\n            const data = await res.json();\n            handleStatusPayload(data);\n            if (data.status === 'completed' || data.status === 'failed') {\n                clearInterval(pollTimer);\n                pollTimer = null;\n            }\n        } catch (err) {\n            clearInterval(pollTimer);\n            pollTimer = null;\n            updateStatus('轮询失败：' + err.message);\n        }\n    }, 3000);\n};\n\nconst handleFileSelection = () => {\n    if (!fileInput || fileInput.files.length === 0) {\n        updateStatus('等待上传。');\n        return;\n    }\n    updateStatus(`已选择文件：${fileInput.files[0].name}`);\n};\n\nif (fileInput) {\n    fileInput.addEventListener('change', handleFileSelection);\n}\n\nform.addEventListener('submit', async (event) => {\n    event.preventDefault();\n    if (!fileInput.files || fileInput.files.length === 0) {\n        updateStatus('请先选择文件。');\n        return;\n    }\n    resetResults();\n    updateStatus('正在上传稿件...');\n    const formData = new FormData(form);\n\n    try {\n        const res = await fetch('/tools/grader/jobs', { method: 'POST', body: formData });\n        if (!res.ok) {\n            const errorBody = await res.json().catch(() => ({ message: '提交失败' }));\n            updateStatus(errorBody.message || '提交失败');\n            return;\n        }\n        const data = await res.json();\n        handleStatusPayload(data);\n        if (fileInput) {\n            fileInput.value = '';\n            fileInput.dispatchEvent(new Event('change'));\n        }\n        if (data.status_url) {\n            pollJob(data.status_url);\n        }\n    } catch (err) {\n        updateStatus('提交失败：' + err.message);\n    }\n});\n";
/// Extra CSS of the grader page.
pub const GRADER_STYLES: &'static str = "        .results { background: #ffffff; border-radius: 12px; border: 1px solid #e2e8f0; padding: 1.5rem; box-shadow: 0 10px 30px rgba(15, 23, 42, 0.06); }\n        .results h3 { margin-top: 0; }\n";

/// The upload widget of the grader page.
pub open spec fn grader_upload_config() -> UploadWidgetConfig<'static> {
    UploadWidgetConfig {
        widget_id: "grader-upload",
        input_id: "grader-file",
        field_name: "file",
        label: "稿件文件",
        description: Some("支持上传 PDF、DOCX 或 TXT 稿件。"),
        note: Some("仅支持单个 PDF / DOCX / TXT 文件。"),
        accept: Some(".pdf,.docx,.txt"),
        multiple: false,
        max_files: None,
    }
}

/// The grader page of a signed-in user, with the given footer and the
/// history tab's stylesheet and script.
pub open spec fn grader_page_html(user: AuthUser, footer: Seq<char>, history_styles: Seq<char>, history_script: Seq<char>) -> Seq<char> {
    tool_page_html(
        "稿件评估与期刊推荐 | 张圆教授课题组 AI 工具箱"@,
        join(seq![TOOL_PAGE_BASE_STYLES@, history_styles, UPLOAD_WIDGET_STYLES@, GRADER_STYLES@], "\n"@),
        "稿件评估与期刊推荐"@,
        module_admin_link(user.is_admin, "/dashboard/modules/grader"@),
        signed_in_note(user.username@, "。上传 PDF、DOCX 或 TXT 稿件，系统会估计投稿水平并推荐期刊。"@),
        "grader"@,
        "新任务"@,
        "历史记录"@,
        GRADER_FORM_HEAD@ + upload_widget_html(grader_upload_config()) + GRADER_FORM_TAIL@,
        history_panel_html("grader"@),
        footer,
        join(seq![UPLOAD_WIDGET_SCRIPT@, inline_script(GRADER_SCRIPT@), inline_script(history_script)], "\n"@),
    )
}

/// Renders the grader page of a signed-in user.
pub fn render_grader_page(user: &AuthUser, footer_html: String, history_styles: &str, history_script: &str) -> (res: String)
    ensures
        res@ == grader_page_html(*user, footer_html@, history_styles@, history_script@),
{
    let username = escape_html(user.username.as_str());
    let note_html = render_signed_in_note(user.username.as_str(), "。上传 PDF、DOCX 或 TXT 稿件，系统会估计投稿水平并推荐期刊。");
    let config = UploadWidgetConfig::new("grader-upload", "grader-file", "file", "稿件文件").with_description("支持上传 PDF、DOCX 或 TXT 稿件。").with_note("仅支持单个 PDF / DOCX / TXT 文件。").with_accept(".pdf,.docx,.txt");
    assert(config == grader_upload_config());
    let widget = render_upload_widget(&config);
    let mut new_tab_html = to_owned_string(GRADER_FORM_HEAD);
    push_str(&mut new_tab_html, widget.as_str());
    push_str(&mut new_tab_html, GRADER_FORM_TAIL);
    let history_panel_html = render_history_panel("grader");
    let extra_style_blocks = vec![to_owned_string(history_styles), to_owned_string(UPLOAD_WIDGET_STYLES), to_owned_string(GRADER_STYLES)];
    let body_scripts = vec![to_owned_string(UPLOAD_WIDGET_SCRIPT), render_inline_script(GRADER_SCRIPT), render_inline_script(history_script)];
    assert(seq![TOOL_PAGE_BASE_STYLES@] + views_of(extra_style_blocks@) =~= seq![TOOL_PAGE_BASE_STYLES@, history_styles@, UPLOAD_WIDGET_STYLES@, GRADER_STYLES@]);
    assert(views_of(body_scripts@) =~= seq![UPLOAD_WIDGET_SCRIPT@, inline_script(GRADER_SCRIPT@), inline_script(history_script@)]);
    let layout = ToolPageLayout {
        meta_title: "稿件评估与期刊推荐 | 张圆教授课题组 AI 工具箱",
        page_heading: "稿件评估与期刊推荐",
        username: username.as_str(),
        note_html,
        tab_group: "grader",
        new_tab_label: "新任务",
        new_tab_html,
        history_tab_label: "历史记录",
        history_panel_html,
        admin_link: module_admin_option(user.is_admin, "/dashboard/modules/grader"),
        footer_html,
        extra_style_blocks,
        body_scripts,
    };
    render_tool_page(layout)
}

/// The form of the referee page before its upload widget.
pub const REFEREE_FORM_HEAD: &'static str = "                <section class=\"panel\">\n                    <h2>提交稿件</h2>\n                    <form id=\"referee-form\">\n                        ";
/// The rest of the referee page's form.
pub const REFEREE_FORM_TAIL: &'static str = "\n                        <label for=\"language\">审稿语言</label>\n                        <select id=\"language\" name=\"language\">\n                            <option value=\"english\">英文</option>\n                            <option value=\"chinese\">中文</option>\n                        </select>\n                        <button type=\"submit\">开始审稿</button>\n                    </form>\n                    <div id=\"submission-status\" class=\"status-box\">等待上传。</div>\n                </section>\n                <section class=\"panel\">\n                    <h2>任务进度</h2>\n                    <div id=\"job-status\"></div>\n                </section>\n";
/// The client script of the referee page.
pub const REFEREE_SCRIPT: &'static str = "const form = document.getElementById('referee-form');\nconst statusBox = document.getElementById('submission-status');\nconst jobStatus = document.getElementById('job-status');\nconst fileInput = document.getElementById('referee-file');\nconst languageSelect = document.getElementById('language');\nlet pollTimer = null;\n\nconst setStatus = (message, type = null) => {\n    statusBox.textContent = message;\n    statusBox.classList.remove('error', 'success');\n    if (type) {\n        statusBox.classList.add(type);\n    }\n};\n\nconst stopPolling = () => {\n    if (pollTimer) {\n        clearInterval(pollTimer);\n        pollTimer = null;\n    }\n};\n\nconst renderReviewCard = (title, review) => {\n    const status = review.available ? 'completed' : 'processing';\n    const tag = `<span class=\"status-tag ${status}\">${status}</span>`;\n    const download = review.download_url\n        ? `<p class=\"downloads\"><a href=\"${review.download_url}\">下载 DOCX</a></p>`\n        : '';\n    return `\n        <div class=\"review-card\">\n            <h3>${title} ${tag}</h3>\n            <p class=\"note\">模型：${review.model}</p>\n            ${download}\n        </div>\n    `;\n};\n\nconst renderJobStatus = (payload) => {\n    if (!payload) {\n        jobStatus.innerHTML = '<p class=\"note\">暂无任务记录。</p>';\n        return;\n    }\n\n    const reviews = [];\n    if (payload.round1_reviews && payload.round1_reviews.length) {\n        payload.round1_reviews.forEach((review, idx) => {\n            reviews.push(renderReviewCard(`第一轮评审 ${idx + 1}`, review));\n        });\n    }\n    if (payload.round2_review) {\n        reviews.push(renderReviewCard('第二轮元审稿', payload.round2_review));\n    }\n    if (payload.round3_review) {\n        reviews.push(renderReviewCard('第三轮事实核查', payload.round3_review));\n    }\n\n    const cards = reviews.length ? reviews.join('') : '<p class=\"note\">评审结果准备中...</p>';\n    const detail = payload.status_detail ? `<p class=\"note\">${payload.status_detail}</p>` : '';\n\n    jobStatus.innerHTML = `\n        <div class=\"status\">\n            <p><strong>任务状态：</strong> ${payload.status}</p>\n            ${detail}\n            <div class=\"reviews\">${cards}</div>\n        </div>\n    `;\n};\n\nconst fetchStatus = async (jobId) => {\n    try {\n        const response = await fetch(`/api/referee/jobs/${jobId}`, { headers: { 'Accept': 'application/json' } });\n        if (!response.ok) {\n            throw new Error('状态查询失败');\n        }\n        const payload = await response.json();\n        renderJobStatus(payload);\n\n        if (payload.status === 'completed' || payload.status === 'failed') {\n            stopPolling();\n            if (payload.status === 'completed') {\n                setStatus('审稿完成，可查看下方下载链接。', 'success');\n            } else {\n                setStatus('任务失败，请查看状态信息。', 'error');\n            }\n        }\n    } catch (error) {\n        stopPolling();\n        setStatus('轮询失败：' + error.message, 'error');\n    }\n};\n\nform.addEventListener('submit', async (event) => {\n    event.preventDefault();\n    if (!fileInput || fileInput.files.length === 0) {\n        setStatus('请先选择稿件文件。', 'error');\n        return;\n    }\n\n    stopPolling();\n    setStatus('正在上传稿件...', null);\n\n    const formData = new FormData(form);\n\n    try {\n        const response = await fetch('/tools/referee/jobs', {\n            method: 'POST',\n            body: formData,\n        });\n\n        if (!response.ok) {\n            const payload = await response.json().catch(() => ({ message: '提交失败。' }));\n            setStatus(payload.message || '提交失败。', 'error');\n            return;\n        }\n\n        const payload = await response.json();\n        setStatus('任务已创建，正在执行审稿流程...', 'success');\n        renderJobStatus(null);\n        fetchStatus(payload.job_id);\n        pollTimer = setInterval(() => fetchStatus(payload.job_id), 5000);\n        form.reset();\n        if (fileInput) {\n            fileInput.value = '';\n            fileInput.dispatchEvent(new Event('change'));\n        }\n    } catch (error) {\n        setStatus('提交失败：' + error.message, 'error');\n    }\n});\n";

/// The upload widget of the referee page.
pub open spec fn referee_upload_config() -> UploadWidgetConfig<'static> {
    UploadWidgetConfig {
        widget_id: "referee-upload",
        input_id: "referee-file",
        field_name: "file",
        label: "稿件文件",
        description: Some("支持上传 PDF 或 DOCX。DOCX 将自动转换为 PDF 参与审稿。"),
        note: None,
        accept: Some(".pdf,.docx"),
        multiple: false,
        max_files: None,
    }
}

/// The referee page of a signed-in user, with the given footer and the
/// history tab's stylesheet and script.
pub open spec fn referee_page_html(user: AuthUser, footer: Seq<char>, history_styles: Seq<char>, history_script: Seq<char>) -> Seq<char> {
    tool_page_html(
        "审稿助手 | Zhang Group AI Toolkit"@,
        join(seq![TOOL_PAGE_BASE_STYLES@, history_styles, UPLOAD_WIDGET_STYLES@], "\n"@),
        "审稿助手"@,
        module_admin_link(user.is_admin, "/dashboard/modules/referee"@),
        signed_in_note(user.username@, "。上传稿件后，系统将自动执行三轮审稿，生成可下载的 DOCX 报告。"@),
        "referee"@,
        "新任务"@,
        "历史记录"@,
        REFEREE_FORM_HEAD@ + upload_widget_html(referee_upload_config()) + REFEREE_FORM_TAIL@,
        history_panel_html("referee"@),
        footer,
        join(seq![UPLOAD_WIDGET_SCRIPT@, inline_script(REFEREE_SCRIPT@), inline_script(history_script)], "\n"@),
    )
}

/// Renders the referee page of a signed-in user.
pub fn render_referee_page(user: &AuthUser, footer_html: String, history_styles: &str, history_script: &str) -> (res: String)
    ensures
        res@ == referee_page_html(*user, footer_html@, history_styles@, history_script@),
{
    let username = escape_html(user.username.as_str());
    let note_html = render_signed_in_note(user.username.as_str(), "。上传稿件后，系统将自动执行三轮审稿，生成可下载的 DOCX 报告。");
    let config = UploadWidgetConfig::new("referee-upload", "referee-file", "file", "稿件文件").with_description("支持上传 PDF 或 DOCX。DOCX 将自动转换为 PDF 参与审稿。").with_accept(".pdf,.docx");
    assert(config == referee_upload_config());
    let widget = render_upload_widget(&config);
    let mut new_tab_html = to_owned_string(REFEREE_FORM_HEAD);
    push_str(&mut new_tab_html, widget.as_str());
    push_str(&mut new_tab_html, REFEREE_FORM_TAIL);
    let history_panel_html = render_history_panel("referee");
    let extra_style_blocks = vec![to_owned_string(history_styles), to_owned_string(UPLOAD_WIDGET_STYLES)];
    let body_scripts = vec![to_owned_string(UPLOAD_WIDGET_SCRIPT), render_inline_script(REFEREE_SCRIPT), render_inline_script(history_script)];
    assert(seq![TOOL_PAGE_BASE_STYLES@] + views_of(extra_style_blocks@) =~= seq![TOOL_PAGE_BASE_STYLES@, history_styles@, UPLOAD_WIDGET_STYLES@]);
    assert(views_of(body_scripts@) =~= seq![UPLOAD_WIDGET_SCRIPT@, inline_script(REFEREE_SCRIPT@), inline_script(history_script@)]);
    let layout = ToolPageLayout {
        meta_title: "审稿助手 | Zhang Group AI Toolkit",
        page_heading: "审稿助手",
        username: username.as_str(),
        note_html,
        tab_group: "referee",
        new_tab_label: "新任务",
        new_tab_html,
        history_tab_label: "历史记录",
        history_panel_html,
        admin_link: module_admin_option(user.is_admin, "/dashboard/modules/referee"),
        footer_html,
        extra_style_blocks,
        body_scripts,
    };
    render_tool_page(layout)
}

/// The module-settings link of the information extraction page, as that page writes it.
pub const INFOEXTRACT_ADMIN_LINK: &'static str = "<a class=\\\"admin-link\\\" href=\\\"/dashboard/modules/infoextract\\\">模块管理</a>";
/// Part 0 of the infoextract page around its signed-in user, admin link and footer.
pub const INFOEXTRACT_PAGE_0: &'static str = "<!DOCTYPE html>\n<html lang=\"zh-CN\">\n<head>\n    <meta charset=\"UTF-8\">\n    <title>信息提取 | Zhang Group AI Toolkit</title>\n    <meta name=\"viewport\" content=\"width=device-width, initial-scale=1\">\n    <meta name=\"robots\" content=\"noindex,nofollow\">\n    <style>\n        :root { color-scheme: light; }\n        body { font-family: \"Helvetica Neue\", Arial, sans-serif; margin: 0; background: #f8fafc; color: #0f172a; }\n        header { background: #ffffff; padding: 2rem 1.5rem; border-bottom: 1px solid #e2e8f0; }\n        .header-bar { display: flex; justify-content: space-between; align-items: center; flex-wrap: wrap; gap: 1rem; }\n        .back-link { display: inline-flex; align-items: center; gap: 0.4rem; color: #1d4ed8; text-decoration: none; font-weight: 600; background: #e0f2fe; padding: 0.5rem 0.95rem; border-radius: 999px; border: 1px solid #bfdbfe; transition: background 0.15s ease, border 0.15s ease; }\n        .back-link:hover { background: #bfdbfe; border-color: #93c5fd; }\n        .admin-link { display: inline-flex; align-items: center; gap: 0.35rem; color: #0f172a; background: #fee2e2; border: 1px solid #fecaca; padding: 0.45rem 0.9rem; border-radius: 999px; text-decoration: none; font-weight: 600; }\n        .admin-link:hover { background: #fecaca; border-color: #fca5a5; }\n        main { padding: 2rem 1.5rem; max-width: 960px; margin: 0 auto; box-sizing: border-box; }\n        section { margin-bottom: 2.5rem; }\n        .panel { background: #ffffff; border-radius: 12px; border: 1px solid #e2e8f0; padding: 1.5rem; box-shadow: 0 18px 40px rgba(15, 23, 42, 0.08); }\n        .panel h2 { margin-top: 0; }\n        button { padding: 0.85rem 1.2rem; border: none; border-radius: 8px; background: #2563eb; color: #ffffff; font-weight: 600; cursor: pointer; transition: background 0.15s ease; }\n        button:hover { background: #1d4ed8; }\n        button:disabled { opacity: 0.6; cursor: not-allowed; }\n        .note { color: #475569; font-size: 0.95rem; line-height: 1.6; }\n        .drop-zone { border: 2px dashed #cbd5f5; border-radius: 12px; padding: 2rem; text-align: center; background: #f8fafc; transition: border-color 0.2s ease, background 0.2s ease; cursor: pointer; margin-bottom: 1rem; color: #475569; }\n        .drop-zone strong { color: #1d4ed8; }\n        .drop-zone.dragover { border-color: #2563eb; background: #e0f2fe; }\n        .drop-zone input[type=\"file\"] { display: none; }\n        .browse-link { color: #2563eb; text-decoration: underline; cursor: pointer; font-weight: 600; }\n        .file-list { margin: 1rem 0; padding: 0; list-style: none; display: grid; gap: 0.6rem; }\n        .file-item { display: flex; justify-content: space-between; align-items: center; padding: 0.6rem 0.8rem; border: 1px solid #e2e8f0; border-radius: 8px; background: #ffffff; box-shadow: 0 6px 16px rgba(15,23,42,0.05); font-size: 0.92rem; }\n        .file-item span { flex: 1; overflow: hidden; text-overflow: ellipsis; white-space: nowrap; padding-right: 0.75rem; }\n        .remove-file { background: transparent; color: #dc2626; border: none; font-weight: 600; cursor: pointer; }\n        .remove-file:hover { text-decoration: underline; }\n        .status { margin-top: 1.5rem; font-size: 0.95rem; }\n        .status .error { color: #b91c1c; }\n        .status .success { color: #166534; }\n        .job-table { width: 100%; border-collapse: collapse; margin-top: 1rem; }\n        .job-table th, .job-table td { padding: 0.65rem 0.85rem; border: 1px solid #e2e8f0; text-align: left; font-size: 0.92rem; }\n        .job-table th { background: #f1f5f9; }\n        .status-tag { display: inline-block; padding: 0.2rem 0.65rem; border-radius: 999px; font-size: 0.85rem; font-weight: 600; }\n        .status-tag.pending { background: #fef3c7; color: #92400e; }\n        .status-tag.processing { background: #e0f2fe; color: #1d4ed8; }\n        .status-tag.completed { background: #dcfce7; color: #166534; }\n        .status-tag.failed { background: #fee2e2; color: #b91c1c; }\n        .downloads a { color: #2563eb; text-decoration: none; font-weight: 600; }\n        .downloads a:hover { text-decoration: underline; }\n        .app-footer { margin-top: 3rem; text-align: center; font-size: 0.85rem; color: #94a3b8; }\n        @media (max-width: 768px) {\n            header { padding: 1.5rem 1rem; }\n            main { padding: 1.5rem 1rem; }\n            .header-bar { flex-direction: column; align-items: flex-start; }\n            .drop-zone { padding: 1.5rem 1rem; }\n            .job-table { font-size: 0.85rem; }\n        }\n    </style>\n</head>\n<body>\n    <header>\n        <div class=\"header-bar\">\n            <h1>信息提取</h1>\n            <div style=\"display:flex; gap:0.75rem; align-items:center; flex-wrap:wrap;\">\n                <a class=\"back-link\" href=\"/\">← 返回首页</a>\n                ";
/// Part 1 of the infoextract page around its signed-in user, admin link and footer.
pub const INFOEXTRACT_PAGE_1: &'static str = "\n            </div>\n        </div>\n        <p class=\"note\">当前登录：<strong>";
/// Part 2 of the infoextract page around its signed-in user, admin link and footer.
pub const INFOEXTRACT_PAGE_2: &'static str = "</strong>。上传最多 100 篇 PDF 论文与字段定义表（XLSX），系统将批量抽取自定义信息并生成汇总表。</p>\n    </header>\n    <main>\n        <section class=\"panel\">\n            <h2>发起新任务</h2>\n            <form id=\"infoextract-form\">\n                <label>上传论文（PDF，最多 100 篇）</label>\n                <div id=\"doc-drop-area\" class=\"drop-zone\">\n                    <p><strong>拖拽 PDF 文件</strong>到此处，或<span class=\"browse-link\" data-target=\"documents\">点击选择</span>文件。</p>\n                    <p class=\"note\" style=\"margin:0\">支持批量上传，单次任务上限 100 篇。</p>\n                    <input id=\"documents\" name=\"documents\" type=\"file\" multiple accept=\".pdf\" required>\n                </div>\n                <ul id=\"documents-list\" class=\"file-list\"></ul>\n\n                <label>上传字段定义表（XLSX）</label>\n                <div id=\"spec-drop-area\" class=\"drop-zone\">\n                    <p><strong>拖拽或选择 XLSX 文件</strong>，描述要提取的字段。</p>\n                    <p class=\"note\" style=\"margin:0\">第 1 行名称，第 2 行说明，第 3 行示例（分号分隔），第 4 行枚举（分号分隔）。至少填写一行说明/示例/枚举，且示例与枚举不可同时填写。</p>\n                    <span class=\"browse-link\" data-target=\"spec\">点击选择</span>\n                    <input id=\"spec\" name=\"spec\" type=\"file\" accept=\".xlsx\" required>\n                </div>\n                <ul id=\"spec-list\" class=\"file-list\"></ul>\n\n                <button type=\"submit\">开始处理</button>\n            </form>\n            <div id=\"form-status\" class=\"status\"></div>\n        </section>\n        <section class=\"panel\">\n            <h2>任务进度</h2>\n            <div id=\"job-status\"></div>\n        </section>\n        ";
/// Part 3 of the infoextract page around its signed-in user, admin link and footer.
pub const INFOEXTRACT_PAGE_3: &'static str = "\n    </main>\n    <script>\n        const form = document.getElementById('infoextract-form');\n        const statusBox = document.getElementById('form-status');\n        const jobStatus = document.getElementById('job-status');\n        const documentsInput = document.getElementById('documents');\n        const specInput = document.getElementById('spec');\n        const documentsList = document.getElementById('documents-list');\n        const specList = document.getElementById('spec-list');\n        const docDropArea = document.getElementById('doc-drop-area');\n        const specDropArea = document.getElementById('spec-drop-area');\n        let pollTimer = null;\n\n        function renderDocuments() {\n            documentsList.innerHTML = '';\n            const files = Array.from(documentsInput.files);\n            files.forEach((file, idx) => {\n                const li = document.createElement('li');\n                li.className = 'file-item';\n                li.innerHTML = `<span>${file.name}</span>`;\n                const remove = document.createElement('button');\n                remove.type = 'button';\n                remove.className = 'remove-file';\n                remove.textContent = '移除';\n                remove.addEventListener('click', () => removeDocument(idx));\n                li.appendChild(remove);\n                documentsList.appendChild(li);\n            });\n        }\n\n        function removeDocument(index) {\n            const files = Array.from(documentsInput.files);\n            files.splice(index, 1);\n            const dataTransfer = new DataTransfer();\n            files.forEach(file => dataTransfer.items.add(file));\n            documentsInput.files = dataTransfer.files;\n            renderDocuments();\n        }\n\n        function setSpecFile(file) {\n            const dataTransfer = new DataTransfer();\n            dataTransfer.items.add(file);\n            specInput.files = dataTransfer.files;\n            renderSpec();\n        }\n\n        function renderSpec() {\n            specList.innerHTML = '';\n            const file = specInput.files[0];\n            if (!file) return;\n            const li = document.createElement('li');\n            li.className = 'file-item';\n            li.innerHTML = `<span>${file.name}</span>`;\n            const remove = document.createElement('button');\n            remove.type = 'button';\n            remove.className = 'remove-file';\n            remove.textContent = '移除';\n            remove.addEventListener('click', () => { specInput.value = ''; specList.innerHTML = ''; });\n            li.appendChild(remove);\n            specList.appendChild(li);\n        }\n\n        function preventDefaults(e) {\n            e.preventDefault();\n            e.stopPropagation();\n        }\n\n        function handleDrop(zone, handler) {\n            zone.addEventListener('dragenter', preventDefaults);\n            zone.addEventListener('dragover', e => {\n                preventDefaults(e);\n                zone.classList.add('dragover');\n            });\n            zone.addEventListener('dragleave', e => {\n                preventDefaults(e);\n                zone.classList.remove('dragover');\n            });\n            zone.addEventListener('drop', e => {\n                preventDefaults(e);\n                zone.classList.remove('dragover');\n                handler(e.dataTransfer.files);\n            });\n        }\n\n        handleDrop(docDropArea, files => {\n            const current = Array.from(documentsInput.files);\n            for (const file of files) {\n                if (!file.name.toLowerCase().endsWith('.pdf')) continue;\n                current.push(file);\n            }\n            if (current.length > 100) {\n                statusBox.innerHTML = '<span class=\"error\">单次任务最多 100 篇论文。</span>';\n                current.splice(100);\n            }\n            const dt = new DataTransfer();\n            current.forEach(file => dt.items.add(file));\n            documentsInput.files = dt.files;\n            renderDocuments();\n        });\n\n        handleDrop(specDropArea, files => {\n            const file = Array.from(files).find(f => f.name.toLowerCase().endsWith('.xlsx'));\n            if (file) {\n                setSpecFile(file);\n            }\n        });\n\n        document.querySelectorAll('.browse-link').forEach(link => {\n            link.addEventListener('click', () => {\n                const target = link.getAttribute('data-target');\n                if (target === 'documents') {\n                    documentsInput.click();\n                } else if (target === 'spec') {\n                    specInput.click();\n                }\n            });\n        });\n\n        documentsInput.addEventListener('change', renderDocuments);\n        specInput.addEventListener('change', renderSpec);\n\n        form.addEventListener('submit', async (event) => {\n            event.preventDefault();\n            statusBox.textContent = '';\n\n            const pdfs = Array.from(documentsInput.files);\n            if (pdfs.length === 0) {\n                statusBox.innerHTML = '<span class=\"error\">请至少上传一篇 PDF 论文。</span>';\n                return;\n            }\n            if (pdfs.length > 100) {\n                statusBox.innerHTML = '<span class=\"error\">单次任务最多 100 篇论文。</span>';\n                return;\n            }\n            if (!specInput.files[0]) {\n                statusBox.innerHTML = '<span class=\"error\">请提供字段定义表 XLSX。</span>';\n                return;\n            }\n\n            const formData = new FormData();\n            pdfs.forEach(file => formData.append('documents', file));\n            formData.append('spec', specInput.files[0]);\n\n            form.querySelector('button').disabled = true;\n            statusBox.innerHTML = '任务提交中，请稍候…';\n\n            try {\n                const response = await fetch('/tools/infoextract/jobs', {\n                    method: 'POST',\n                    body: formData,\n                });\n\n                if (!response.ok) {\n                    const payload = await response.json().catch(() => ({ message: '提交失败。' }));\n                    statusBox.innerHTML = `<span class=\"error\">${payload.message || '提交失败。'}</span>`;\n                    form.querySelector('button').disabled = false;\n                    return;\n                }\n\n                const payload = await response.json();\n                statusBox.innerHTML = '<span class=\"success\">任务已创建，正在处理。</span>';\n                startPolling(payload.status_url);\n            } catch (err) {\n                statusBox.innerHTML = '<span class=\"error\">网络请求失败，请稍后重试。</span>';\n            } finally {\n                form.querySelector('button').disabled = false;\n            }\n        });\n\n        function startPolling(url) {\n            if (pollTimer) {\n                clearInterval(pollTimer);\n            }\n            fetchStatus(url);\n            pollTimer = setInterval(() => fetchStatus(url), 3500);\n        }\n\n        async function fetchStatus(url) {\n            if (!url) return;\n            try {\n                const response = await fetch(url);\n                if (!response.ok) {\n                    jobStatus.innerHTML = '<p class=\"error\">获取任务状态失败。</p>';\n                    return;\n                }\n                const payload = await response.json();\n                renderStatus(payload);\n                if (payload.status === 'completed' || payload.status === 'failed') {\n                    clearInterval(pollTimer);\n                    pollTimer = null;\n                }\n            } catch (err) {\n                jobStatus.innerHTML = '<p class=\"error\">获取任务状态失败。</p>';\n            }\n        }\n\n        function renderStatus(payload) {\n            const rows = payload.documents.map(doc => {\n                const detail = doc.status_detail ? `<div>${doc.status_detail}</div>` : '';\n                const error = doc.error_message ? `<div class=\"error\">${doc.error_message}</div>` : '';\n                return `\n                    <tr>\n                        <td>${doc.original_filename}</td>\n                        <td><span class=\"status-tag ${doc.status}\">${translateStatus(doc.status)}</span></td>\n                        <td>重试次数：${doc.attempt_count}</td>\n                        <td>${detail}${error}</td>\n                    </tr>\n                `;\n            }).join('');\n\n            const download = payload.result_download_url\n                ? `<div class=\"downloads\"><a href=\"${payload.result_download_url}\">下载提取结果 XLSX</a></div>`\n                : '';\n\n            const overallError = payload.error_message\n                ? `<p class=\"error\">${payload.error_message}</p>`\n                : '';\n\n            jobStatus.innerHTML = `\n                <p>任务 ID：<code>${payload.job_id}</code></p>\n                <p>状态：<span class=\"status-tag ${payload.status}\">${translateStatus(payload.status)}</span></p>\n                ${download}\n                ${overallError}\n                <table class=\"job-table\">\n                    <thead>\n                        <tr>\n                            <th>文件名</th>\n                            <th>状态</th>\n                            <th>尝试次数</th>\n                            <th>详情</th>\n                        </tr>\n                    </thead>\n                    <tbody>${rows}</tbody>\n                </table>\n            `;\n        }\n\n        function translateStatus(status) {\n            switch (status) {\n                case 'pending': return '排队中';\n                case 'processing': return '处理中';\n                case 'completed': return '已完成';\n                case 'failed': return '失败';\n                default: return status;\n            }\n        }\n    </script>\n</body>\n</html>";

/// The information extraction page of a signed-in user: the settings link for administrators, the escaped user name and the footer.
pub open spec fn infoextract_page_html(user: AuthUser, footer: Seq<char>) -> Seq<char> {
    INFOEXTRACT_PAGE_0@ + (if user.is_admin { INFOEXTRACT_ADMIN_LINK@ } else { Seq::empty() }) + INFOEXTRACT_PAGE_1@ + escape(user.username@) + INFOEXTRACT_PAGE_2@ + footer + INFOEXTRACT_PAGE_3@
}

/// Renders the infoextract page of a signed-in user with the given footer.
pub fn render_infoextract_page(user: &AuthUser, footer_html: &str) -> (res: String)
    ensures
        res@ == infoextract_page_html(*user, footer_html@),
{
    let mut out = to_owned_string(INFOEXTRACT_PAGE_0);
    if user.is_admin {
        push_str(&mut out, INFOEXTRACT_ADMIN_LINK);
    }
    push_str(&mut out, INFOEXTRACT_PAGE_1);
    let username = escape_html(user.username.as_str());
    push_str(&mut out, username.as_str());
    push_str(&mut out, INFOEXTRACT_PAGE_2);
    push_str(&mut out, footer_html);
    push_str(&mut out, INFOEXTRACT_PAGE_3);
    assert(out@ =~= infoextract_page_html(*user, footer_html@));
    out
}

/// The module-settings link of the DOCX translation page.
pub const TRANSLATEDOCX_ADMIN_LINK: &'static str = "<a class=\"admin-link\" href=\"/dashboard/modules/translatedocx\">模块管理</a>";

/// Part 0 of the translatedocx page around its signed-in user, admin link and footer.
pub const TRANSLATEDOCX_PAGE_0: &'static str = "<!DOCTYPE html>\n<html lang=\"zh-CN\">\n<head>\n    <meta charset=\"UTF-8\">\n    <title>DOCX 文档翻译 | 张圆教授课题组 AI 工具箱</title>\n    <meta name=\"viewport\" content=\"width=device-width, initial-scale=1\">\n    <meta name=\"robots\" content=\"noindex,nofollow\">\n    <style>\n        :root { color-scheme: light; }\n        body { font-family: \"Helvetica Neue\", Arial, sans-serif; margin: 0; background: #f8fafc; color: #0f172a; }\n        header { background: #ffffff; padding: 2rem 1.5rem; border-bottom: 1px solid #e2e8f0; }\n        .header-bar { display: flex; justify-content: space-between; align-items: center; flex-wrap: wrap; gap: 1rem; }\n        .back-link { display: inline-flex; align-items: center; gap: 0.4rem; color: #1d4ed8; text-decoration: none; font-weight: 600; background: #e0f2fe; padding: 0.5rem 0.95rem; border-radius: 999px; border: 1px solid #bfdbfe; transition: background 0.15s ease, border 0.15s ease; }\n        .back-link:hover { background: #bfdbfe; border-color: #93c5fd; }\n        main { padding: 2rem 1.5rem; max-width: 960px; margin: 0 auto; box-sizing: border-box; }\n        section { margin-bottom: 2.5rem; }\n        .panel { background: #ffffff; border-radius: 12px; border: 1px solid #e2e8f0; padding: 1.5rem; box-shadow: 0 18px 40px rgba(15, 23, 42, 0.08); }\n        label { display: block; margin-bottom: 0.5rem; font-weight: 600; color: #0f172a; }\n        button { padding: 0.85rem 1.2rem; border: none; border-radius: 8px; background: #2563eb; color: #ffffff; font-weight: 600; cursor: pointer; transition: background 0.15s ease; }\n        button:hover { background: #1d4ed8; }\n        button:disabled { opacity: 0.6; cursor: not-allowed; }\n        table { width: 100%; border-collapse: collapse; margin-top: 1.5rem; background: #ffffff; border: 1px solid #e2e8f0; border-radius: 12px; overflow: hidden; }\n        th, td { padding: 0.75rem 1rem; border-bottom: 1px solid #e2e8f0; text-align: left; }\n        th { background: #f1f5f9; color: #0f172a; font-weight: 600; }\n        .admin-link { display: inline-flex; align-items: center; gap: 0.35rem; color: #0f172a; background: #fee2e2; border: 1px solid #fecaca; padding: 0.45rem 0.9rem; border-radius: 999px; text-decoration: none; font-weight: 600; }\n        .admin-link:hover { background: #fecaca; border-color: #fca5a5; }\n        .status { margin-top: 1.5rem; }\n        .status p { margin: 0.25rem 0; }\n        .note { color: #475569; font-size: 0.95rem; }\n        .downloads a { color: #2563eb; text-decoration: none; margin-right: 1rem; }\n        .downloads a:hover { text-decoration: underline; }\n        .drop-zone { border: 2px dashed #cbd5f5; border-radius: 12px; padding: 2rem; text-align: center; background: #f8fafc; transition: border-color 0.2s ease, background 0.2s ease; cursor: pointer; margin-bottom: 1rem; color: #475569; }\n        .drop-zone.dragover { border-color: #2563eb; background: #e0f2fe; }\n        .drop-zone strong { color: #1d4ed8; }\n        .drop-zone input[type=\"file\"] { display: none; }\n        .browse-link { color: #2563eb; text-decoration: underline; }\n        .app-footer { margin-top: 3rem; text-align: center; font-size: 0.85rem; color: #94a3b8; }\n    </style>\n</head>\n<body>\n    <header>\n        <div class=\"header-bar\">\n            <h1>DOCX 文档翻译</h1>\n            <div style=\"display:flex; gap:0.75rem; align-items:center; flex-wrap:wrap;\">\n                <a class=\"back-link\" href=\"/\">← 返回首页</a>\n                ";
/// Part 1 of the translatedocx page around its signed-in user, admin link and footer.
pub const TRANSLATEDOCX_PAGE_1: &'static str = "\n            </div>\n        </div>\n        <p class=\"note\">当前登录：<strong>";
/// Part 2 of the translatedocx page around its signed-in user, admin link and footer.
pub const TRANSLATEDOCX_PAGE_2: &'static str = "</strong>。上传 DOCX 文件，按照术语表进行精准翻译。</p>\n    </header>\n    <main>\n        <section class=\"panel\">\n            <h2>提交新任务</h2>\n            <form id=\"translator-form\">\n                <label for=\"files\">上传 DOCX 文件</label>\n                <div id=\"drop-area\" class=\"drop-zone\">\n                    <p><strong>拖拽 DOCX 文件</strong>到此处，或<span class=\"browse-link\">点击选择</span>文件。</p>\n                    <p class=\"note\">本工具一次仅支持处理 1 个文件。</p>\n                    <input id=\"files\" name=\"files\" type=\"file\" accept=\".docx\" required>\n                </div>\n                <label for=\"direction\">翻译方向</label>\n                <select id=\"direction\" name=\"direction\">\n                    <option value=\"en_to_cn\">英文 → 中文</option>\n                    <option value=\"cn_to_en\">中文 → 英文</option>\n                </select>\n                <button type=\"submit\">开始翻译</button>\n            </form>\n            <div id=\"submission-status\" class=\"status\"></div>\n        </section>\n        <section class=\"panel\">\n            <h2>任务进度</h2>\n            <div id=\"job-status\"></div>\n        </section>\n        ";
/// Part 3 of the translatedocx page around its signed-in user, admin link and footer.
pub const TRANSLATEDOCX_PAGE_3: &'static str = "\n    </main>\n    <script>\n        const form = document.getElementById('translator-form');\n        const statusBox = document.getElementById('submission-status');\n        const jobStatus = document.getElementById('job-status');\n        const dropArea = document.getElementById('drop-area');\n        const fileInput = document.getElementById('files');\n        let activeJobId = null;\n        let statusTimer = null;\n\n        const updateSelectionStatus = () => {\n            if (fileInput.files.length > 0) {\n                statusBox.textContent = `已选择 ${fileInput.files.length} 个文件。`;\n            } else {\n                statusBox.textContent = '';\n            }\n        };\n\n        const handleFiles = (list) => {\n            if (!list || !list.length) {\n                return;\n            }\n\n            const dt = new DataTransfer();\n            dt.items.add(list[0]);\n            fileInput.files = dt.files;\n            updateSelectionStatus();\n        };\n\n        fileInput.addEventListener('change', updateSelectionStatus);\n        dropArea.addEventListener('click', () => fileInput.click());\n        dropArea.addEventListener('dragenter', (event) => {\n            event.preventDefault();\n            dropArea.classList.add('dragover');\n        });\n        dropArea.addEventListener('dragover', (event) => event.preventDefault());\n        dropArea.addEventListener('dragleave', (event) => {\n            event.preventDefault();\n            const related = event.relatedTarget;\n            if (!related || !dropArea.contains(related)) {\n                dropArea.classList.remove('dragover');\n            }\n        });\n        dropArea.addEventListener('drop', (event) => {\n            event.preventDefault();\n            dropArea.classList.remove('dragover');\n            handleFiles(event.dataTransfer.files);\n        });\n\n        form.addEventListener('submit', async (event) => {\n            event.preventDefault();\n            if (!fileInput.files.length) {\n                statusBox.textContent = '请先选择 DOCX 文件。';\n                return;\n            }\n\n            const directionValue = document.getElementById('direction').value;\n            const directionLabel = directionValue === 'cn_to_en' ? '中文 → 英文' : '英文 → 中文';\n            statusBox.textContent = `正在上传文档（${directionLabel}）...`;\n            const data = new FormData(form);\n\n            try {\n                const response = await fetch('/tools/translatedocx/jobs', {\n                    method: 'POST',\n                    body: data,\n                });\n\n                if (!response.ok) {\n                    const payload = await response.json();\n                    statusBox.textContent = payload.message || '任务创建失败。';\n                    return;\n                }\n\n                const payload = await response.json();\n                activeJobId = payload.job_id;\n                statusBox.textContent = '任务已创建，正在监控进度...';\n                pollStatus(payload.status_url);\n            } catch (error) {\n                statusBox.textContent = '提交任务失败。';\n            }\n        });\n\n        function pollStatus(url) {\n            if (statusTimer) {\n                clearInterval(statusTimer);\n            }\n\n            const fetchStatus = async () => {\n                try {\n                    const response = await fetch(url);\n                    if (!response.ok) {\n                        jobStatus.textContent = '暂时无法加载任务状态。';\n                        return;\n                    }\n                    const payload = await response.json();\n                    renderStatus(payload);\n\n                    if (payload.status === 'completed' || payload.status === 'failed') {\n                        clearInterval(statusTimer);\n                    }\n                } catch (error) {\n                    jobStatus.textContent = '暂时无法加载任务状态。';\n                }\n            };\n\n            fetchStatus();\n            statusTimer = setInterval(fetchStatus, 4000);\n        }\n\n        function translateStatus(status) {\n            const map = {\n                pending: '待处理',\n                processing: '处理中',\n                completed: '已完成',\n                failed: '已失败',\n                queued: '排队中',\n            };\n            return map[status] || status;\n        }\n\n        function renderStatus(payload) {\n            if (!payload) {\n                jobStatus.textContent = '';\n                return;\n            }\n\n            let docRows = payload.documents.map((doc) => {\n                const downloadLink = doc.translated_download_url ? `<a href=\"${doc.translated_download_url}\">下载译文 DOCX</a>` : '处理中';\n                const detailRow = doc.status_detail ? `<tr><td colspan=\"3\"><div class=\"note\">${doc.status_detail}</div></td></tr>` : '';\n                const errorRow = doc.error_message ? `<tr><td colspan=\"3\"><div class=\"note\">${doc.error_message}</div></td></tr>` : '';\n                const statusLabel = translateStatus(doc.status);\n                return `\n                    <tr>\n                        <td>${doc.original_filename}</td>\n                        <td>${statusLabel}</td>\n                        <td class=\"downloads\">${downloadLink}</td>\n                    </tr>\n                    ${detailRow}\n                    ${errorRow}\n                `;\n            }).join('');\n            if (!docRows) {\n                docRows = '<tr><td colspan=\"3\">暂无文件记录。</td></tr>';\n            }\n\n            const directionBlock = payload.translation_direction ? `<p class=\"note\">翻译方向：${payload.translation_direction}</p>` : '';\n            const detailBlock = payload.status_detail ? `<p class=\"note\">${payload.status_detail}</p>` : '';\n            const errorBlock = payload.error_message ? `<p class=\"note\">${payload.error_message}</p>` : '';\n            const jobStatusLabel = translateStatus(payload.status);\n\n            jobStatus.innerHTML = `\n                <div class=\"status\">\n                    <p><strong>任务状态：</strong> ${jobStatusLabel}</p>\n                    ${directionBlock}\n                    ${detailBlock}\n                    ${errorBlock}\n                    <table>\n                        <thead><tr><th>文件名</th><th>状态</th><th>下载</th></tr></thead>\n                        <tbody>${docRows}</tbody>\n                    </table>\n                </div>\n            `;\n        }\n    </script>\n</body>\n</html>";

/// The DOCX translation page of a signed-in user: the settings link for administrators, the escaped user name and the footer.
pub open spec fn translatedocx_page_html(user: AuthUser, footer: Seq<char>) -> Seq<char> {
    TRANSLATEDOCX_PAGE_0@ + (if user.is_admin { TRANSLATEDOCX_ADMIN_LINK@ } else { Seq::empty() }) + TRANSLATEDOCX_PAGE_1@ + escape(user.username@) + TRANSLATEDOCX_PAGE_2@ + footer + TRANSLATEDOCX_PAGE_3@
}

/// Renders the translatedocx page of a signed-in user with the given footer.
pub fn render_translatedocx_page(user: &AuthUser, footer_html: &str) -> (res: String)
    ensures
        res@ == translatedocx_page_html(*user, footer_html@),
{
    let mut out = to_owned_string(TRANSLATEDOCX_PAGE_0);
    if user.is_admin {
        push_str(&mut out, TRANSLATEDOCX_ADMIN_LINK);
    }
    push_str(&mut out, TRANSLATEDOCX_PAGE_1);
    let username = escape_html(user.username.as_str());
    push_str(&mut out, username.as_str());
    push_str(&mut out, TRANSLATEDOCX_PAGE_2);
    push_str(&mut out, footer_html);
    push_str(&mut out, TRANSLATEDOCX_PAGE_3);
    assert(out@ =~= translatedocx_page_html(*user, footer_html@));
    out
}

} // verus!
