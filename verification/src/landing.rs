//! The landing page of a signed-in user: its flash message, the cards of
//! the tools and the administrator's link.

use vstd::prelude::*;

use crate::auth::AuthUser;
use crate::templates::{footer_for_year, render_footer};
use crate::text::{escape, escape_html, push_str, str_eq, to_owned_string};

verus! {

/// Query parameters of the landing page.
#[derive(Debug, Default)]
pub struct LandingQuery {
    pub status: Option<String>,
    pub error: Option<String>,
}

/// The landing page's flash box: logging out is confirmed, a missing
/// permission or any other error is reported, otherwise nothing.
pub open spec fn landing_flash(status: Option<Seq<char>>, error: Option<Seq<char>>) -> Seq<char> {
    if status == Some("logged_out"@) {
        "<div class=\"flash success\">已退出登录。</div>"@
    } else if error is Some {
        if error->0 == "not_authorized"@ {
            "<div class=\"flash error\">该操作需要管理员权限。</div>"@
        } else {
            "<div class=\"flash error\">发生未知错误，请稍后重试。</div>"@
        }
    } else {
        Seq::empty()
    }
}

/// The text of an optional string.
pub open spec fn opt_view(o: Option<String>) -> Option<Seq<char>> {
    match o {
        Some(s) => Some(s@),
        None => None,
    }
}

/// Composes the landing page's flash box from its query.
pub fn compose_landing_flash(params: &LandingQuery) -> (res: String)
    ensures
        res@ == landing_flash(opt_view(params.status), opt_view(params.error)),
{
    if let Some(status) = &params.status {
        if str_eq(status.as_str(), "logged_out") {
            return "<div class=\"flash success\">已退出登录。</div>".to_owned();
        }
    }
    if let Some(error) = &params.error {
        let message = if str_eq(error.as_str(), "not_authorized") {
            "该操作需要管理员权限。"
        } else {
            "发生未知错误，请稍后重试。"
        };
        let mut out = String::new();
        push_str(&mut out, "<div class=\"flash error\">");
        push_str(&mut out, message);
        push_str(&mut out, "</div>");
        proof {
            reveal_strlit("<div class=\"flash error\">");
            reveal_strlit("</div>");
            reveal_strlit("该操作需要管理员权限。");
            reveal_strlit("发生未知错误，请稍后重试。");
            reveal_strlit("<div class=\"flash error\">该操作需要管理员权限。</div>");
            reveal_strlit("<div class=\"flash error\">发生未知错误，请稍后重试。</div>");
        }
        assert(out@ =~= landing_flash(opt_view(params.status), opt_view(params.error)));
        return out;
    }
    String::new()
}

/// The start page's document up to the signed-in user's name.
pub const MAIN_PAGE_HEAD: &'static str = "<!DOCTYPE html>\n<html lang=\"zh-CN\">\n<head>\n    <meta charset=\"UTF-8\">\n    <title>张圆教授课题组 AI 工具箱</title>\n    <meta name=\"viewport\" content=\"width=device-width, initial-scale=1\">\n    <meta name=\"robots\" content=\"noindex,nofollow\">\n    <style>\n        :root { color-scheme: light; }\n        body { font-family: \"Helvetica Neue\", Arial, sans-serif; margin: 0; background: #f8fafc; color: #0f172a; min-height: 100vh; display: flex; flex-direction: column; }\n        header { background: #ffffff; padding: clamp(2rem, 4vw, 2.75rem) clamp(1.5rem, 6vw, 3rem); display: flex; flex-direction: column; gap: 1rem; border-bottom: 1px solid #e2e8f0; }\n        .header-top { display: flex; flex-direction: column; gap: 0.5rem; }\n        .header-top h1 { margin: 0; font-size: clamp(1.9rem, 3vw, 2.4rem); }\n        .header-top p { margin: 0; color: #64748b; }\n        .header-actions { display: flex; flex-wrap: wrap; align-items: center; gap: 1rem; }\n        .header-actions span { color: #475569; font-size: 0.95rem; }\n        .logout-form button { padding: 0.6rem 1.3rem; border: none; border-radius: 999px; background: #2563eb; color: #ffffff; font-weight: 600; cursor: pointer; transition: background 0.15s ease; }\n        .logout-form button:hover { background: #1d4ed8; }\n        main { flex: 1; padding: clamp(2rem, 5vw, 3rem); max-width: 1100px; margin: 0 auto; width: 100%; box-sizing: border-box; }\n        .flash { padding: 1rem 1.25rem; border-radius: 10px; margin-bottom: 1.5rem; font-weight: 600; border: 1px solid transparent; }\n        .flash.success { background: #ecfdf3; border-color: #bbf7d0; color: #166534; }\n        .flash.error { background: #fef2f2; border-color: #fecaca; color: #b91c1c; }\n        .modules-grid { display: grid; gap: 1.5rem; grid-template-columns: repeat(auto-fit, minmax(240px, 1fr)); }\n        .module-card { display: block; background: #ffffff; padding: 1.75rem; border-radius: 16px; text-decoration: none; color: inherit; box-shadow: 0 18px 40px rgba(15, 23, 42, 0.08); transition: transform 0.15s ease, box-shadow 0.15s ease, border 0.15s ease; border: 1px solid #e2e8f0; }\n        .module-card:hover { transform: translateY(-4px); box-shadow: 0 24px 55px rgba(15, 23, 42, 0.12); border-color: #bfdbfe; }\n        .module-card h2 { margin-top: 0; margin-bottom: 0.75rem; font-size: 1.25rem; }\n        .module-card p { margin: 0 0 1.25rem 0; color: #475569; font-size: 0.95rem; line-height: 1.6; }\n        .module-card .cta { font-weight: 600; color: #2563eb; }\n        .admin-link { display: inline-flex; align-items: center; justify-content: center; margin-top: 2.5rem; padding: 0.85rem 1.5rem; border-radius: 12px; background: #e0f2fe; color: #1d4ed8; text-decoration: none; font-weight: 600; border: 1px solid #bfdbfe; transition: background 0.15s ease, border 0.15s ease; }\n        .admin-link:hover { background: #bfdbfe; border-color: #93c5fd; }\n        .app-footer { margin-top: 3rem; text-align: center; font-size: 0.85rem; color: #94a3b8; }\n    </style>\n</head>\n<body>\n    <header>\n        <div class=\"header-top\">\n            <h1>张圆教授课题组 AI 工具箱</h1>\n            <p>请选择功能模块开始使用。</p>\n        </div>\n        <div class=\"header-actions\">\n            <span>当前登录：<strong>";

/// One module card of the start page.
pub open spec fn module_card_html(title: Seq<char>, description: Seq<char>, href: Seq<char>) -> Seq<char> {
    "<a class=\"module-card\" href=\""@ + href + "\"><h2>"@ + escape(title) + "</h2><p>"@ + escape(description)
        + "</p><span class=\"cta\">进入工具 →</span></a>"@
}

/// The start page's module cards, one per tool.
pub open spec fn module_cards_html() -> Seq<char> {
    module_card_html("文档摘要与翻译"@, "上传 PDF、Word 或文本文件，生成结构化摘要并输出中文译文。"@, "/tools/summarizer"@)
        + module_card_html("系统综述信息提取"@, "批量上传论文与提取模板，自动抽取研究地点、样本量等自定义字段。"@, "/tools/infoextract"@)
        + module_card_html("DOCX 文档翻译"@, "上传 Word 文档，利用术语表逐段翻译。"@, "/tools/translatedocx"@)
        + module_card_html("稿件评估与期刊推荐"@, "评估稿件投稿级别并给出匹配期刊建议。"@, "/tools/grader"@)
        + module_card_html("审稿助手"@, "上传学术稿件，通过8个模型并行审稿，生成元审稿报告和事实核查。"@, "/tools/referee"@)
}

/// The link to the dashboard, shown to administrators only.
pub open spec fn admin_button_html(is_admin: bool) -> Seq<char> {
    if is_admin { "<a class=\"admin-link\" href=\"/dashboard\">管理后台</a>"@ } else { Seq::empty() }
}

/// The start page of a signed-in user.
pub open spec fn main_page_html(username: Seq<char>, flash: Seq<char>, is_admin: bool, footer: Seq<char>) -> Seq<char> {
    MAIN_PAGE_HEAD@ + escape(username) + "</strong></span>\n            <form class=\"logout-form\" method=\"post\" action=\"/logout\">\n                <button type=\"submit\">退出登录</button>\n            </form>\n        </div>\n    </header>\n    <main>\n        "@ + flash + "\n        <div class=\"modules-grid\">\n            "@ + module_cards_html() + "\n        </div>\n        "@
        + admin_button_html(is_admin) + "\n        "@ + footer + "\n    </main>\n</body>\n</html>"@
}

fn push_module_card(out: &mut String, title: &str, description: &str, href: &str)
    ensures
        final(out)@ == old(out)@ + module_card_html(title@, description@, href@),
{
    push_str(out, "<a class=\"module-card\" href=\"");
    push_str(out, href);
    push_str(out, "\"><h2>");
    let t = escape_html(title);
    push_str(out, t.as_str());
    push_str(out, "</h2><p>");
    let d = escape_html(description);
    push_str(out, d.as_str());
    push_str(out, "</p><span class=\"cta\">进入工具 →</span></a>");
}

/// Renders the start page of a signed-in user with the page's flash box
/// and the given footer: the user's name, escaped, the five tool cards and,
/// for administrators, the link to the dashboard.
pub fn render_main_page_with_footer(user: &AuthUser, params: &LandingQuery, footer: &str) -> (res: String)
    ensures
        res@ == main_page_html(user.username@, landing_flash(opt_view(params.status), opt_view(params.error)), user.is_admin, footer@),
{
    let username = escape_html(user.username.as_str());
    let flash = compose_landing_flash(params);
    let mut out = to_owned_string(MAIN_PAGE_HEAD);
    push_str(&mut out, username.as_str());
    push_str(&mut out, "</strong></span>\n            <form class=\"logout-form\" method=\"post\" action=\"/logout\">\n                <button type=\"submit\">退出登录</button>\n            </form>\n        </div>\n    </header>\n    <main>\n        ");
    push_str(&mut out, flash.as_str());
    push_str(&mut out, "\n        <div class=\"modules-grid\">\n            ");
    let ghost cards_start = out@;
    push_module_card(&mut out, "文档摘要与翻译", "上传 PDF、Word 或文本文件，生成结构化摘要并输出中文译文。", "/tools/summarizer");
    push_module_card(&mut out, "系统综述信息提取", "批量上传论文与提取模板，自动抽取研究地点、样本量等自定义字段。", "/tools/infoextract");
    push_module_card(&mut out, "DOCX 文档翻译", "上传 Word 文档，利用术语表逐段翻译。", "/tools/translatedocx");
    push_module_card(&mut out, "稿件评估与期刊推荐", "评估稿件投稿级别并给出匹配期刊建议。", "/tools/grader");
    push_module_card(&mut out, "审稿助手", "上传学术稿件，通过8个模型并行审稿，生成元审稿报告和事实核查。", "/tools/referee");
    assert(out@ =~= cards_start + module_cards_html());
    push_str(&mut out, "\n        </div>\n        ");
    if user.is_admin {
        push_str(&mut out, "<a class=\"admin-link\" href=\"/dashboard\">管理后台</a>");
    }
    push_str(&mut out, "\n        ");
    push_str(&mut out, footer);
    push_str(&mut out, "\n    </main>\n</body>\n</html>");
    assert(out@ =~= main_page_html(user.username@, flash@, user.is_admin, footer@));
    out
}

/// Renders the start page of a signed-in user, with this year's footer.
pub fn render_main_page(user: &AuthUser, params: &LandingQuery) -> (res: String)
    ensures
        exists|year: i32|
            res@ == main_page_html(
                user.username@,
                landing_flash(opt_view(params.status), opt_view(params.error)),
                user.is_admin,
                #[trigger] footer_for_year(year),
            ),
{
    let footer = render_footer();
    let res = render_main_page_with_footer(user, params, footer.as_str());
    let ghost year = choose|year: i32| #[trigger] footer_for_year(year) == footer@;
    assert(res@ == main_page_html(
        user.username@,
        landing_flash(opt_view(params.status), opt_view(params.error)),
        user.is_admin,
        footer_for_year(year),
    ));
    res
}

} // verus!
