//! Shared page layout for the tool pages, the login page and the footer.

use chrono::Datelike;
use vstd::prelude::*;

use crate::text::{join, join_strings, push_decimal, push_str, signed_decimal, views_of, push_signed_decimal};

verus! {

/// Base CSS shared by every tool page.
pub const TOOL_PAGE_BASE_STYLES: &'static str = "\n        :root { color-scheme: light; }\n        body { font-family: \"Helvetica Neue\", Arial, sans-serif; margin: 0; background: #f8fafc; color: #0f172a; }\n        header { background: #ffffff; padding: 2rem 1.5rem; border-bottom: 1px solid #e2e8f0; }\n        .header-bar { display: flex; justify-content: space-between; align-items: center; flex-wrap: wrap; gap: 1rem; }\n        .back-link { display: inline-flex; align-items: center; gap: 0.4rem; color: #1d4ed8; text-decoration: none; font-weight: 600; background: #e0f2fe; padding: 0.5rem 0.95rem; border-radius: 999px; border: 1px solid #bfdbfe; transition: background 0.15s ease, border 0.15s ease; }\n        .back-link:hover { background: #bfdbfe; border-color: #93c5fd; }\n        .admin-link { display: inline-flex; align-items: center; gap: 0.35rem; color: #0f172a; background: #fee2e2; border: 1px solid #fecaca; padding: 0.45rem 0.9rem; border-radius: 999px; text-decoration: none; font-weight: 600; }\n        .admin-link:hover { background: #fecaca; border-color: #fca5a5; }\n        main { padding: 2rem 1.5rem; max-width: 960px; margin: 0 auto; box-sizing: border-box; }\n        section { margin-bottom: 2.5rem; }\n        .panel { background: #ffffff; border-radius: 12px; border: 1px solid #e2e8f0; padding: 1.5rem; box-shadow: 0 18px 40px rgba(15, 23, 42, 0.08); }\n        .panel h2 { margin-top: 0; }\n        label { display: block; margin-bottom: 0.5rem; font-weight: 600; color: #0f172a; }\n        select { width: 100%; padding: 0.75rem; border-radius: 8px; border: 1px solid #cbd5f5; background: #f8fafc; color: #0f172a; box-sizing: border-box; }\n        select:focus { outline: none; border-color: #2563eb; box-shadow: 0 0 0 3px rgba(37, 99, 235, 0.12); }\n        input[type=\"checkbox\"] { margin-right: 0.5rem; }\n        button { padding: 0.85rem 1.2rem; border: none; border-radius: 8px; background: #2563eb; color: #ffffff; font-weight: 600; cursor: pointer; transition: background 0.15s ease; }\n        button:hover { background: #1d4ed8; }\n        button:disabled { opacity: 0.6; cursor: not-allowed; }\n        table { width: 100%; border-collapse: collapse; margin-top: 1.5rem; background: #ffffff; border: 1px solid #e2e8f0; border-radius: 12px; overflow: hidden; }\n        th, td { padding: 0.75rem 1rem; border-bottom: 1px solid #e2e8f0; text-align: left; }\n        th { background: #f1f5f9; color: #0f172a; font-weight: 600; }\n        .status { margin-top: 1.5rem; font-size: 0.95rem; }\n        .status p { margin: 0.25rem 0; }\n        .status-box { margin-top: 1rem; padding: 1rem; border-radius: 12px; background: #f1f5f9; color: #0f172a; min-height: 3rem; }\n        .status-box.error { color: #b91c1c; }\n        .status-box.success { color: #166534; }\n        .note { color: #475569; font-size: 0.95rem; line-height: 1.6; }\n        .downloads a { color: #2563eb; text-decoration: none; margin-right: 1rem; font-weight: 600; }\n        .downloads a:hover { text-decoration: underline; }\n        .reviews { display: grid; gap: 1rem; margin-top: 1.5rem; }\n        .review-card { background: #ffffff; border-radius: 12px; border: 1px solid #e2e8f0; padding: 1.25rem; box-shadow: 0 12px 30px rgba(15, 23, 42, 0.06); }\n        .review-card h3 { margin-top: 0; font-size: 1rem; }\n        .status-tag { display: inline-flex; align-items: center; gap: 0.4rem; padding: 0.25rem 0.75rem; border-radius: 999px; font-size: 0.85rem; font-weight: 600; }\n        .status-tag.pending { background: #fef3c7; color: #92400e; }\n        .status-tag.processing { background: #e0f2fe; color: #1d4ed8; }\n        .status-tag.completed { background: #dcfce7; color: #166534; }\n        .status-tag.failed { background: #fee2e2; color: #b91c1c; }\n        .job-table { width: 100%; border-collapse: collapse; margin-top: 1rem; }\n        .job-table th, .job-table td { padding: 0.65rem 0.85rem; border: 1px solid #e2e8f0; text-align: left; font-size: 0.92rem; }\n        .job-table th { background: #f1f5f9; }\n        .app-footer { margin-top: 3rem; text-align: center; font-size: 0.85rem; color: #94a3b8; }\n        @media (max-width: 768px) {\n            header { padding: 1.5rem 1rem; }\n            main { padding: 1.5rem 1rem; }\n            .header-bar { flex-direction: column; align-items: flex-start; }\n            table { font-size: 0.9rem; }\n            th, td { padding: 0.5rem; }\n            .reviews { grid-template-columns: 1fr; }\n        }\n";

/// Link to a module's admin page shown in the page header.
pub struct ToolAdminLink<'a> {
    pub href: &'a str,
    pub label: &'a str,
}

/// Everything a tool page shows: header texts, the two tabs, an optional
/// admin link, the footer, extra CSS blocks and scripts.
pub struct ToolPageLayout<'a> {
    pub meta_title: &'a str,
    pub page_heading: &'a str,
    pub username: &'a str,
    pub note_html: String,
    pub tab_group: &'a str,
    pub new_tab_label: &'a str,
    pub new_tab_html: String,
    pub history_tab_label: &'a str,
    pub history_panel_html: String,
    pub admin_link: Option<ToolAdminLink<'a>>,
    pub footer_html: String,
    pub extra_style_blocks: Vec<String>,
    pub body_scripts: Vec<String>,
}

/// The admin link markup, or nothing.
pub open spec fn admin_link_html(link: Option<ToolAdminLink>) -> Seq<char> {
    match link {
        Some(l) => "<a class=\"admin-link\" href=\""@ + l.href@ + "\">"@ + l.label@ + "</a>"@,
        None => Seq::empty(),
    }
}

/// The tool page document for the given pieces.
pub open spec fn tool_page_html(
    meta_title: Seq<char>,
    styles: Seq<char>,
    page_heading: Seq<char>,
    admin_link: Seq<char>,
    note_html: Seq<char>,
    tab_group: Seq<char>,
    new_tab_label: Seq<char>,
    history_tab_label: Seq<char>,
    new_tab_html: Seq<char>,
    history_panel_html: Seq<char>,
    footer_html: Seq<char>,
    scripts: Seq<char>,
) -> Seq<char> {
    "<!DOCTYPE html>\n<html lang=\"zh-CN\">\n<head>\n    <meta charset=\"UTF-8\">\n    <title>"@ + meta_title + "</title>\n    <meta name=\"viewport\" content=\"width=device-width, initial-scale=1\">\n    <meta name=\"robots\" content=\"noindex,nofollow\">\n    <style>\n"@ + styles + "\n    </style>\n</head>\n<body>\n    <header>\n        <div class=\"header-bar\">\n            <h1>"@ + page_heading + "</h1>\n            <div style=\"display:flex; gap:0.75rem; align-items:center; flex-wrap:wrap;\">\n                <a class=\"back-link\" href=\"/\">← 返回首页</a>\n                "@ + admin_link + "\n            </div>\n        </div>\n        <p class=\"note\">"@ + note_html + "</p>\n    </header>\n    <main>\n        <div class=\"tool-tabs\" data-tab-group=\""@ + tab_group + "\">\n            <button type=\"button\" class=\"tab-toggle active\" data-tab-target=\"new\">"@ + new_tab_label + "</button>\n            <button type=\"button\" class=\"tab-toggle\" data-tab-target=\"history\">"@ + history_tab_label + "</button>\n        </div>\n        <div class=\"tab-container\" data-tab-container=\""@ + tab_group + "\">\n            <div class=\"tab-section active\" data-tab-panel=\"new\">\n"@ + new_tab_html + "\n            </div>\n            <div class=\"tab-section\" data-tab-panel=\"history\">\n"@ + history_panel_html + "\n            </div>\n        </div>\n        "@ + footer_html + "\n    </main>\n"@ + scripts + "\n</body>\n</html>"@
}

/// The page's CSS: the base styles, then each extra block, one per line.
pub open spec fn page_styles(extra: Seq<String>) -> Seq<char> {
    join(seq![TOOL_PAGE_BASE_STYLES@] + views_of(extra), "\n"@)
}

/// Renders a tool page. The pieces are inserted as given: the caller
/// supplies HTML for the `_html` fields and escapes any user text.
pub fn render_tool_page(layout: ToolPageLayout<'_>) -> (res: String)
    ensures
        res@ == tool_page_html(
            layout.meta_title@,
            page_styles(layout.extra_style_blocks@),
            layout.page_heading@,
            admin_link_html(layout.admin_link),
            layout.note_html@,
            layout.tab_group@,
            layout.new_tab_label@,
            layout.history_tab_label@,
            layout.new_tab_html@,
            layout.history_panel_html@,
            layout.footer_html@,
            join(views_of(layout.body_scripts@), "\n"@),
        ),
{
    let admin_link = match &layout.admin_link {
        Some(link) => {
            let mut a = String::new();
            push_str(&mut a, "<a class=\"admin-link\" href=\"");
            push_str(&mut a, link.href);
            push_str(&mut a, "\">");
            push_str(&mut a, link.label);
            push_str(&mut a, "</a>");
            a
        },
        None => String::new(),
    };
    let mut blocks: Vec<String> = Vec::new();
    blocks.push(TOOL_PAGE_BASE_STYLES.to_owned());
    let mut k: usize = 0;
    while k < layout.extra_style_blocks.len()
        invariant
            k <= layout.extra_style_blocks.len(),
            views_of(blocks@) == seq![TOOL_PAGE_BASE_STYLES@] + views_of(layout.extra_style_blocks@.subrange(0, k as int)),
        decreases layout.extra_style_blocks.len() - k,
    {
        let ghost before = views_of(blocks@);
        let block = layout.extra_style_blocks[k].clone();
        blocks.push(block);
        assert(views_of(blocks@) =~= before.push(layout.extra_style_blocks@[k as int]@));
        assert(views_of(layout.extra_style_blocks@.subrange(0, k + 1)) =~= views_of(
            layout.extra_style_blocks@.subrange(0, k as int),
        ).push(layout.extra_style_blocks@[k as int]@));
        k = k + 1;
        assert(views_of(blocks@) =~= seq![TOOL_PAGE_BASE_STYLES@] + views_of(layout.extra_style_blocks@.subrange(0, k as int)));
    }
    assert(layout.extra_style_blocks@.subrange(0, layout.extra_style_blocks@.len() as int) =~= layout.extra_style_blocks@);
    let styles = join_strings(&blocks, "\n");
    let scripts = join_strings(&layout.body_scripts, "\n");
    let mut out = String::new();
    push_str(&mut out, "<!DOCTYPE html>\n<html lang=\"zh-CN\">\n<head>\n    <meta charset=\"UTF-8\">\n    <title>");
    push_str(&mut out, layout.meta_title);
    push_str(&mut out, "</title>\n    <meta name=\"viewport\" content=\"width=device-width, initial-scale=1\">\n    <meta name=\"robots\" content=\"noindex,nofollow\">\n    <style>\n");
    push_str(&mut out, styles.as_str());
    push_str(&mut out, "\n    </style>\n</head>\n<body>\n    <header>\n        <div class=\"header-bar\">\n            <h1>");
    push_str(&mut out, layout.page_heading);
    push_str(&mut out, "</h1>\n            <div style=\"display:flex; gap:0.75rem; align-items:center; flex-wrap:wrap;\">\n                <a class=\"back-link\" href=\"/\">← 返回首页</a>\n                ");
    push_str(&mut out, admin_link.as_str());
    push_str(&mut out, "\n            </div>\n        </div>\n        <p class=\"note\">");
    push_str(&mut out, layout.note_html.as_str());
    push_str(&mut out, "</p>\n    </header>\n    <main>\n        <div class=\"tool-tabs\" data-tab-group=\"");
    push_str(&mut out, layout.tab_group);
    push_str(&mut out, "\">\n            <button type=\"button\" class=\"tab-toggle active\" data-tab-target=\"new\">");
    push_str(&mut out, layout.new_tab_label);
    push_str(&mut out, "</button>\n            <button type=\"button\" class=\"tab-toggle\" data-tab-target=\"history\">");
    push_str(&mut out, layout.history_tab_label);
    push_str(&mut out, "</button>\n        </div>\n        <div class=\"tab-container\" data-tab-container=\"");
    push_str(&mut out, layout.tab_group);
    push_str(&mut out, "\">\n            <div class=\"tab-section active\" data-tab-panel=\"new\">\n");
    push_str(&mut out, layout.new_tab_html.as_str());
    push_str(&mut out, "\n            </div>\n            <div class=\"tab-section\" data-tab-panel=\"history\">\n");
    push_str(&mut out, layout.history_panel_html.as_str());
    push_str(&mut out, "\n            </div>\n        </div>\n        ");
    push_str(&mut out, layout.footer_html.as_str());
    push_str(&mut out, "\n    </main>\n");
    push_str(&mut out, scripts.as_str());
    push_str(&mut out, "\n</body>\n</html>");
    assert(out@ =~= tool_page_html(
        layout.meta_title@,
        page_styles(layout.extra_style_blocks@),
        layout.page_heading@,
        admin_link_html(layout.admin_link),
        layout.note_html@,
        layout.tab_group@,
        layout.new_tab_label@,
        layout.history_tab_label@,
        layout.new_tab_html@,
        layout.history_panel_html@,
        layout.footer_html@,
        join(views_of(layout.body_scripts@), "\n"@),
    ));
    out
}

/// The footer for a given year.
pub open spec fn footer_for_year(year: i32) -> Seq<char> {
    "<footer class=\"app-footer\">© 2024-"@ + signed_decimal(year as int) + " 张圆教授课题组，仅限内部使用</footer>"@
}

/// Renders the footer for a given year.
pub fn render_footer_for_year(year: i32) -> (res: String)
    ensures
        res@ == footer_for_year(year),
{
    let mut out = String::new();
    push_str(&mut out, "<footer class=\"app-footer\">© 2024-");
    push_signed_decimal(&mut out, year as i64);
    push_str(&mut out, " 张圆教授课题组，仅限内部使用</footer>");
    assert(out@ =~= footer_for_year(year));
    out
}

/// The current calendar year in UTC, from `chrono::Utc::now()`. It depends
/// on the clock, so nothing is claimed of it.
#[verifier::external_body]
fn current_year() -> i32 {
    chrono::Utc::now().year()
}

/// Renders the footer for the current year.
pub fn render_footer() -> (res: String)
    ensures
        exists|year: i32| #[trigger] footer_for_year(year) == res@,
{
    let year = current_year();
    let res = render_footer_for_year(year);
    assert(footer_for_year(year) == res@);
    res
}

/// The login page around a footer.
pub open spec fn login_page_html(footer: Seq<char>) -> Seq<char> {
    "<!DOCTYPE html>\n<html lang=\"zh-CN\">\n<head>\n    <meta charset=\"UTF-8\">\n    <title>张圆教授课题组 AI 工具箱</title>\n    <meta name=\"viewport\" content=\"width=device-width, initial-scale=1\">\n    <meta name=\"robots\" content=\"noindex,nofollow\">\n    <style>\n        :root { color-scheme: light; }\n        body { font-family: \"Helvetica Neue\", Arial, sans-serif; display: flex; flex-direction: column; align-items: center; justify-content: center; min-height: 100vh; margin: 0; background: #f1f5f9; color: #0f172a; padding: 1.5rem; box-sizing: border-box; gap: 1.5rem; }\n        main { width: 100%; max-width: 480px; display: flex; flex-direction: column; align-items: center; gap: 1.5rem; }\n        .panel { background: #ffffff; padding: 2.5rem 2.25rem; border-radius: 18px; box-shadow: 0 20px 60px rgba(15, 23, 42, 0.08); width: 100%; border: 1px solid #e2e8f0; box-sizing: border-box; }\n        h1 { margin: 0 0 1rem; font-size: 1.8rem; text-align: center; }\n        p.description { margin: 0 0 1.75rem; color: #475569; text-align: center; font-size: 0.95rem; }\n        label { display: block; margin-top: 1.2rem; font-weight: 600; letter-spacing: 0.01em; color: #0f172a; }\n        input { width: 100%; padding: 0.85rem; margin-top: 0.65rem; border-radius: 10px; border: 1px solid #cbd5f5; background: #f8fafc; color: #0f172a; font-size: 1rem; box-sizing: border-box; }\n        input:focus { outline: none; border-color: #2563eb; box-shadow: 0 0 0 3px rgba(37, 99, 235, 0.15); }\n        button { margin-top: 2rem; width: 100%; padding: 0.95rem; border: none; border-radius: 10px; background: #2563eb; color: #ffffff; font-weight: 600; font-size: 1.05rem; cursor: pointer; transition: background 0.15s ease; }\n        button:hover { background: #1d4ed8; }\n        .app-footer { margin-top: 2.5rem; text-align: center; font-size: 0.85rem; color: #64748b; }\n    </style>\n</head>\n<body>\n    <main>\n        <section class=\"panel\">\n            <h1>张圆教授课题组 AI 工具箱</h1>\n            <p class=\"description\">请输入管理员分配的账号与密码。</p>\n            <form method=\"post\" action=\"/login\">\n                <label for=\"username\">用户名</label>\n                <input id=\"username\" name=\"username\" required>\n                <label for=\"password\">密码</label>\n                <input id=\"password\" type=\"password\" name=\"password\" required>\n                <button type=\"submit\">登录</button>\n            </form>\n        </section>\n        "@ + footer + "\n    </main>\n</body>\n</html>"@
}

/// Renders the login page with the given footer.
pub fn render_login_page_with_footer(footer: &str) -> (res: String)
    ensures
        res@ == login_page_html(footer@),
{
    let mut out = String::new();
    push_str(&mut out, "<!DOCTYPE html>\n<html lang=\"zh-CN\">\n<head>\n    <meta charset=\"UTF-8\">\n    <title>张圆教授课题组 AI 工具箱</title>\n    <meta name=\"viewport\" content=\"width=device-width, initial-scale=1\">\n    <meta name=\"robots\" content=\"noindex,nofollow\">\n    <style>\n        :root { color-scheme: light; }\n        body { font-family: \"Helvetica Neue\", Arial, sans-serif; display: flex; flex-direction: column; align-items: center; justify-content: center; min-height: 100vh; margin: 0; background: #f1f5f9; color: #0f172a; padding: 1.5rem; box-sizing: border-box; gap: 1.5rem; }\n        main { width: 100%; max-width: 480px; display: flex; flex-direction: column; align-items: center; gap: 1.5rem; }\n        .panel { background: #ffffff; padding: 2.5rem 2.25rem; border-radius: 18px; box-shadow: 0 20px 60px rgba(15, 23, 42, 0.08); width: 100%; border: 1px solid #e2e8f0; box-sizing: border-box; }\n        h1 { margin: 0 0 1rem; font-size: 1.8rem; text-align: center; }\n        p.description { margin: 0 0 1.75rem; color: #475569; text-align: center; font-size: 0.95rem; }\n        label { display: block; margin-top: 1.2rem; font-weight: 600; letter-spacing: 0.01em; color: #0f172a; }\n        input { width: 100%; padding: 0.85rem; margin-top: 0.65rem; border-radius: 10px; border: 1px solid #cbd5f5; background: #f8fafc; color: #0f172a; font-size: 1rem; box-sizing: border-box; }\n        input:focus { outline: none; border-color: #2563eb; box-shadow: 0 0 0 3px rgba(37, 99, 235, 0.15); }\n        button { margin-top: 2rem; width: 100%; padding: 0.95rem; border: none; border-radius: 10px; background: #2563eb; color: #ffffff; font-weight: 600; font-size: 1.05rem; cursor: pointer; transition: background 0.15s ease; }\n        button:hover { background: #1d4ed8; }\n        .app-footer { margin-top: 2.5rem; text-align: center; font-size: 0.85rem; color: #64748b; }\n    </style>\n</head>\n<body>\n    <main>\n        <section class=\"panel\">\n            <h1>张圆教授课题组 AI 工具箱</h1>\n            <p class=\"description\">请输入管理员分配的账号与密码。</p>\n            <form method=\"post\" action=\"/login\">\n                <label for=\"username\">用户名</label>\n                <input id=\"username\" name=\"username\" required>\n                <label for=\"password\">密码</label>\n                <input id=\"password\" type=\"password\" name=\"password\" required>\n                <button type=\"submit\">登录</button>\n            </form>\n        </section>\n        ");
    push_str(&mut out, footer);
    push_str(&mut out, "\n    </main>\n</body>\n</html>");
    assert(out@ =~= login_page_html(footer@));
    out
}

/// Renders the login page with the footer of the current year.
pub fn render_login_page() -> (res: String)
    ensures
        exists|year: i32| #[trigger] login_page_html(footer_for_year(year)) == res@,
{
    let year = current_year();
    let footer = render_footer_for_year(year);
    let res = render_login_page_with_footer(footer.as_str());
    assert(login_page_html(footer_for_year(year)) == res@);
    res
}

} // verus!
