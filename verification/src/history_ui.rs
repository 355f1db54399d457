//! The "history" tab shared by the tool pages.

use vstd::prelude::*;

use crate::text::{escape, escape_html, push_str};

verus! {

/// The history panel for a module; the client script fills it in.
pub open spec fn history_panel_html(module_key: Seq<char>) -> Seq<char> {
    "<section class=\"panel history-panel\" data-history-module=\""@ + escape(module_key) + "\" data-history-limit=\"20\">\n    <h2>历史记录</h2>\n    <p class=\"note\">展示最近 24 小时提交的任务，可在后台完成后直接下载结果。</p>\n    <div class=\"history-table-wrapper\">\n        <table class=\"history-table\">\n            <thead>\n                <tr>\n                    <th>任务</th>\n                    <th>状态</th>\n                    <th>最近更新</th>\n                    <th>操作</th>\n                </tr>\n            </thead>\n            <tbody data-history-body>\n                <tr class=\"history-empty-row\"><td colspan=\"4\">正在载入...</td></tr>\n            </tbody>\n        </table>\n    </div>\n</section>"@
}

/// Renders the history panel for a module, with the module key escaped.
pub fn render_history_panel(module_key: &str) -> (res: String)
    ensures
        res@ == history_panel_html(module_key@),
{
    let module = html_escape(module_key);
    let mut out = String::new();
    push_str(&mut out, "<section class=\"panel history-panel\" data-history-module=\"");
    push_str(&mut out, module.as_str());
    push_str(&mut out, "\" data-history-limit=\"20\">\n    <h2>历史记录</h2>\n    <p class=\"note\">展示最近 24 小时提交的任务，可在后台完成后直接下载结果。</p>\n    <div class=\"history-table-wrapper\">\n        <table class=\"history-table\">\n            <thead>\n                <tr>\n                    <th>任务</th>\n                    <th>状态</th>\n                    <th>最近更新</th>\n                    <th>操作</th>\n                </tr>\n            </thead>\n            <tbody data-history-body>\n                <tr class=\"history-empty-row\"><td colspan=\"4\">正在载入...</td></tr>\n            </tbody>\n        </table>\n    </div>\n</section>");
    assert(out@ =~= history_panel_html(module_key@));
    out
}

/// Escapes `&`, `<`, `>`, `"` and `'` for HTML.
pub fn html_escape(value: &str) -> (res: String)
    ensures
        res@ == escape(value@),
{
    escape_html(value)
}

} // verus!
