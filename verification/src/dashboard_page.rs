//! The administration dashboard: the users with their usage over the
//! window, the usage groups with their limits, and the forms that change
//! both.

use vstd::prelude::*;

use crate::admin_utils::{admin_flash, compose_flash_message};
use crate::auth::AuthUser;
use crate::dashboard::{group_option, limit_value_attr, usage_figure, usage_text};
use crate::text::{escape, escape_html, push_signed_decimal, push_str, signed_decimal, str_eq, to_owned_string};
use crate::usage::{registered_modules, ModuleDescriptor, MODULE_GRADER, MODULE_SUMMARIZER, MODULE_TRANSLATE_DOCX};

verus! {

/// A user's usage of one module over the window.
#[derive(Debug, Clone, Copy)]
pub struct ModuleUsage {
    pub units: i64,
    pub tokens: i64,
}

/// A user's usage over the window: the tokens of all modules, and the usage
/// of each registered module in the order of `registered_modules`
/// (`None`: no usage recorded).
#[derive(Debug, Clone)]
pub struct UserUsage {
    pub global_tokens: i64,
    pub modules: Vec<Option<ModuleUsage>>,
}

/// A row of the user table; ids in hyphenated text form.
#[derive(Debug, Clone)]
pub struct DashboardUser {
    pub id: String,
    pub username: String,
    pub usage_group_id: String,
    pub is_admin: bool,
    pub usage: Option<UserUsage>,
}

/// A usage group with its limits: the token limit of all modules and the
/// unit limit of each registered module in the order of
/// `registered_modules` (`None`: unlimited).
#[derive(Debug, Clone)]
pub struct UsageGroupDisplay {
    pub id: String,
    pub name: String,
    pub description: Option<String>,
    pub token_limit: Option<i64>,
    pub unit_limits: Vec<Option<i64>>,
}

/// The registered modules, as `registered_modules` returns them.
pub open spec fn module_descriptors() -> Seq<ModuleDescriptor> {
    seq![
        ModuleDescriptor { key: MODULE_SUMMARIZER, label: "摘要与翻译", unit_label: "文档数量" },
        ModuleDescriptor { key: MODULE_TRANSLATE_DOCX, label: "DOCX 翻译", unit_label: "文档数量" },
        ModuleDescriptor { key: MODULE_GRADER, label: "稿件评估", unit_label: "任务次数" },
    ]
}

/// The usage of module `k`: zero when nothing is recorded.
pub open spec fn module_usage(usage: Option<UserUsage>, k: int) -> ModuleUsage {
    match usage {
        Some(u) => if 0 <= k < u.modules@.len() {
            match u.modules@[k] {
                Some(m) => m,
                None => ModuleUsage { units: 0, tokens: 0 },
            }
        } else {
            ModuleUsage { units: 0, tokens: 0 }
        },
        None => ModuleUsage { units: 0, tokens: 0 },
    }
}

/// The tokens of all modules: zero when nothing is recorded.
pub open spec fn global_tokens(usage: Option<UserUsage>) -> i64 {
    match usage {
        Some(u) => u.global_tokens,
        None => 0,
    }
}

/// The index of the last group among the first `n` with the given id.
pub open spec fn group_index(groups: Seq<UsageGroupDisplay>, id: Seq<char>, n: int) -> Option<int>
    decreases n,
{
    if n <= 0 {
        None
    } else if groups[n - 1].id@ == id {
        Some(n - 1)
    } else {
        group_index(groups, id, n - 1)
    }
}

/// The group of a user.
pub open spec fn user_group(groups: Seq<UsageGroupDisplay>, user: DashboardUser) -> Option<int> {
    group_index(groups, user.usage_group_id@, groups.len() as int)
}

/// The token limit of the group at `gi`.
pub open spec fn token_limit_at(groups: Seq<UsageGroupDisplay>, gi: Option<int>) -> Option<i64> {
    match gi {
        Some(i) => groups[i].token_limit,
        None => None,
    }
}

/// The limit of module `k` in a group.
pub open spec fn unit_limit(group: UsageGroupDisplay, k: int) -> Option<i64> {
    if 0 <= k < group.unit_limits@.len() {
        group.unit_limits@[k]
    } else {
        None
    }
}

/// The limit of module `k` in the group at `gi`.
pub open spec fn unit_limit_at(groups: Seq<UsageGroupDisplay>, gi: Option<int>, k: int) -> Option<i64> {
    match gi {
        Some(i) => unit_limit(groups[i], k),
        None => None,
    }
}

/// The units of the first `n` modules.
pub open spec fn units_sum(usage: Option<UserUsage>, n: int) -> int
    decreases n,
{
    if n <= 0 {
        0
    } else {
        units_sum(usage, n - 1) + module_usage(usage, n - 1).units
    }
}

/// Whether every partial sum of a user's units fits in an `i64`.
pub open spec fn units_fit(user: DashboardUser) -> bool {
    forall|n: int| 0 <= n <= 3 ==> i64::MIN <= #[trigger] units_sum(user.usage, n) <= i64::MAX
}

/// The token figure of a user: tokens against the group's token limit.
pub open spec fn token_text(user: DashboardUser, groups: Seq<UsageGroupDisplay>) -> Seq<char> {
    usage_figure(global_tokens(user.usage), token_limit_at(groups, user_group(groups, user)), "令牌"@)
}

/// The chip of all modules.
pub open spec fn global_chip(text: Seq<char>) -> Seq<char> {
    "<div class=\"usage-chip\"><span class=\"chip-title\">全部模块</span><span>令牌合计</span><span>"@ + escape(text)
        + "</span></div>"@
}

/// The chip of one module.
pub open spec fn module_chip(label: Seq<char>, unit_text: Seq<char>, tokens: i64) -> Seq<char> {
    "<div class=\"usage-chip\"><span class=\"chip-title\">"@ + escape(label) + "</span><span>"@ + escape(unit_text)
        + "</span><span>"@ + escape(signed_decimal(tokens as int) + " 令牌"@) + "</span></div>"@
}

/// The chips of the first `n` modules for a user.
pub open spec fn module_chips(user: DashboardUser, groups: Seq<UsageGroupDisplay>, n: int) -> Seq<char>
    decreases n,
{
    if n <= 0 {
        Seq::empty()
    } else {
        let d = module_descriptors()[n - 1];
        let m = module_usage(user.usage, n - 1);
        module_chips(user, groups, n - 1) + module_chip(
            d.label@,
            usage_figure(m.units, unit_limit_at(groups, user_group(groups, user), n - 1), d.unit_label@),
            m.tokens,
        )
    }
}

/// The options of the group choice of a user's row, the user's group
/// preselected.
pub open spec fn select_options(groups: Seq<UsageGroupDisplay>, selected_id: Seq<char>, n: int) -> Seq<char>
    decreases n,
{
    if n <= 0 {
        Seq::empty()
    } else {
        select_options(groups, selected_id, n - 1) + group_option(groups[n - 1].id@, groups[n - 1].name@, groups[n - 1].id@ == selected_id)
    }
}

/// The group choice of a user's row, which submits itself on change.
pub open spec fn group_select_html(user: DashboardUser, groups: Seq<UsageGroupDisplay>) -> Seq<char> {
    SELECT_FORM_0@ + escape(user.username@) + SELECT_FORM_1@ + "<input type=\"hidden\" name=\"username\" value=\""@
        + escape(user.username@) + "\">"@ + SELECT_OPEN@ + select_options(groups, user.usage_group_id@, groups.len() as int)
        + "</select></form>"@
}

/// The summary cell of a user: the units of all modules and the token figure.
pub open spec fn usage_summary_text(user: DashboardUser, groups: Seq<UsageGroupDisplay>) -> Seq<char> {
    signed_decimal(units_sum(user.usage, 3)) + " 项 · "@ + token_text(user, groups)
}

/// The two rows of a user: the summary row, highlighted for the signed-in
/// administrator, and the hidden row with the usage chips.
pub open spec fn user_rows(user: DashboardUser, groups: Seq<UsageGroupDisplay>, current: Seq<char>) -> Seq<char> {
    ROW_0@ + (if user.username@ == current { "current-user"@ } else { Seq::empty() }) + ROW_1@ + user.id@ + ROW_2@
        + escape(user.username@) + ROW_3@ + group_select_html(user, groups) + ROW_4@ + (if user.is_admin {
        "管理员"@
    } else {
        "普通用户"@
    }) + ROW_5@ + escape(usage_summary_text(user, groups)) + ROW_6@ + user.id@ + ROW_7@ + escape(user.username@) + ROW_8@
        + DETAIL_0@ + user.id@ + DETAIL_1@ + "<div class=\"usage-grid\">"@ + global_chip(token_text(user, groups))
        + module_chips(user, groups, 3) + "</div>"@ + DETAIL_2@
}

/// The rows of the first `n` users.
pub open spec fn table_rows(users: Seq<DashboardUser>, groups: Seq<UsageGroupDisplay>, current: Seq<char>, n: int) -> Seq<char>
    decreases n,
{
    if n <= 0 {
        Seq::empty()
    } else {
        table_rows(users, groups, current, n - 1) + user_rows(users[n - 1], groups, current)
    }
}

/// The body of the user table: a note without users, else their rows.
pub open spec fn table_body(users: Seq<DashboardUser>, groups: Seq<UsageGroupDisplay>, current: Seq<char>) -> Seq<char> {
    if users.len() == 0 {
        "<tr><td colspan=\"5\">当前还没有用户。</td></tr>"@
    } else {
        table_rows(users, groups, current, users.len() as int)
    }
}

/// The group options of the user creation form, the first preselected.
pub open spec fn create_options(groups: Seq<UsageGroupDisplay>, n: int) -> Seq<char>
    decreases n,
{
    if n <= 0 {
        Seq::empty()
    } else {
        create_options(groups, n - 1) + group_option(groups[n - 1].id@, groups[n - 1].name@, n - 1 == 0)
    }
}

/// A limit input's `value` attribute: empty without a limit.
pub open spec fn limit_attr(limit: Option<i64>) -> Seq<char> {
    match limit {
        Some(v) => " value=\""@ + signed_decimal(v as int) + "\""@,
        None => Seq::empty(),
    }
}

/// The limit field of module `k` in a group's form.
pub open spec fn unit_field(group: UsageGroupDisplay, k: int) -> Seq<char> {
    let d = module_descriptors()[k];
    UNIT_FIELDS_0@ + escape(d.label@) + UNIT_FIELDS_1@ + d.key@ + UNIT_FIELDS_2@ + group.id@ + UNIT_FIELDS_3@ + d.unit_label@
        + UNIT_FIELDS_4@ + d.key@ + UNIT_FIELDS_5@ + group.id@ + UNIT_FIELDS_6@ + d.key@ + UNIT_FIELDS_7@ + limit_attr(
        unit_limit(group, k),
    ) + UNIT_FIELDS_8@
}

/// The limit fields of the first `n` modules in a group's form.
pub open spec fn unit_fields(group: UsageGroupDisplay, n: int) -> Seq<char>
    decreases n,
{
    if n <= 0 {
        Seq::empty()
    } else {
        unit_fields(group, n - 1) + unit_field(group, n - 1)
    }
}

/// The limit fields of a group's form: tokens, then each module.
pub open spec fn group_fields(group: UsageGroupDisplay) -> Seq<char> {
    TOKEN_FIELDS_0@ + group.id@ + TOKEN_FIELDS_1@ + group.id@ + TOKEN_FIELDS_2@ + limit_attr(group.token_limit) + TOKEN_FIELDS_3@
        + unit_fields(group, 3)
}

/// The panel of a group, with the form that edits it.
pub open spec fn group_section(group: UsageGroupDisplay) -> Seq<char> {
    let sid = "group-"@ + group.id@;
    let desc = match group.description {
        Some(d) => escape(d@),
        None => "无描述"@,
    };
    let desc_attr = match group.description {
        Some(d) => " value=\""@ + escape(d@) + "\""@,
        None => Seq::empty(),
    };
    GROUP_SECTION_0@ + escape(group.name@) + GROUP_SECTION_1@ + sid + GROUP_SECTION_2@ + sid + GROUP_SECTION_3@ + desc
        + GROUP_SECTION_4@ + group.id@ + GROUP_SECTION_5@ + group.id@ + GROUP_SECTION_6@ + group.id@ + GROUP_SECTION_7@
        + escape(group.name@) + GROUP_SECTION_8@ + group.id@ + GROUP_SECTION_9@ + group.id@ + GROUP_SECTION_10@ + desc_attr
        + GROUP_SECTION_11@ + group_fields(group) + GROUP_SECTION_12@ + sid + GROUP_SECTION_13@
}

/// The panels of the first `n` groups.
pub open spec fn group_sections(groups: Seq<UsageGroupDisplay>, n: int) -> Seq<char>
    decreases n,
{
    if n <= 0 {
        Seq::empty()
    } else {
        group_sections(groups, n - 1) + group_section(groups[n - 1])
    }
}

/// The limit field of module `k` in the new group form.
pub open spec fn new_unit_field(k: int) -> Seq<char> {
    let d = module_descriptors()[k];
    NEW_UNIT_FIELDS_0@ + escape(d.label@) + NEW_UNIT_FIELDS_1@ + d.key@ + NEW_UNIT_FIELDS_2@ + d.unit_label@ + NEW_UNIT_FIELDS_3@
        + d.key@ + NEW_UNIT_FIELDS_4@ + d.key@ + NEW_UNIT_FIELDS_5@
}

/// The panel that creates a group.
pub open spec fn new_group_section() -> Seq<char> {
    NEW_GROUP_SECTION_0@ + NEW_TOKEN_FIELDS@ + new_unit_field(0) + new_unit_field(1) + new_unit_field(2) + NEW_GROUP_SECTION_1@
}

/// The dashboard of an administrator: the flash box, the user table, the
/// user creation form, the group panels and the group creation panel.
pub open spec fn dashboard_html(
    admin: AuthUser,
    status: Option<&str>,
    error: Option<&str>,
    users: Seq<DashboardUser>,
    groups: Seq<UsageGroupDisplay>,
    footer: Seq<char>,
) -> Seq<char> {
    DASHBOARD_PAGE_0@ + admin.id@ + DASHBOARD_PAGE_1@ + escape(admin.username@) + DASHBOARD_PAGE_2@ + admin_flash(status, error)
        + DASHBOARD_PAGE_3@ + table_body(users, groups, admin.username@) + DASHBOARD_PAGE_4@ + USER_CONTROLS_0@
        + create_options(groups, groups.len() as int) + USER_CONTROLS_1@ + DASHBOARD_PAGE_5@
        + "<h2 class=\"section-title\">管理额度组</h2>"@ + group_sections(groups, groups.len() as int) + DASHBOARD_PAGE_6@
        + new_group_section() + DASHBOARD_PAGE_7@ + footer + DASHBOARD_PAGE_8@
}

/// The hidden field and the opening of a row's group choice.
pub const SELECT_OPEN: &'static str = "<select name=\"usage_group_id\" class=\"inline-select\" onchange=\"this.form.submit()\">";
pub const SELECT_FORM_0: &'static str = "<form method=\"post\" action=\"/dashboard/users/group\" class=\"inline-form\" onsubmit=\"return confirm('确认更改 ";
pub const SELECT_FORM_1: &'static str = " 的额度组？');\">";
pub const ROW_0: &'static str = "<tr class=\"user-row ";
pub const ROW_1: &'static str = "\" data-user-id=\"";
pub const ROW_2: &'static str = "\"><td><span class=\"expand-icon\">▶</span> ";
pub const ROW_3: &'static str = "</td><td>";
pub const ROW_4: &'static str = "</td><td>";
pub const ROW_5: &'static str = "</td><td class=\"usage-summary\">";
pub const ROW_6: &'static str = "</td><td class=\"actions\"><button class=\"btn-sm\" onclick=\"toggleUserDetails('";
pub const ROW_7: &'static str = "')\">详情</button><button class=\"btn-sm btn-warning\" data-username=\"";
pub const ROW_8: &'static str = "\" onclick=\"resetPassword(this)\">重置密码</button></td></tr>";
pub const DETAIL_0: &'static str = "<tr class=\"user-detail-row\" id=\"detail-";
pub const DETAIL_1: &'static str = "\" style=\"display: none;\"><td colspan=\"5\">";
pub const DETAIL_2: &'static str = "</td></tr>";
/// The user creation controls, part 0.
pub const USER_CONTROLS_0: &'static str = "<div class=\"admin-actions\">\n    <button class=\"btn-primary\" onclick=\"openCreateUserModal()\">+ 创建用户</button>\n</div>\n<div id=\"create-user-modal\" class=\"modal\">\n    <div class=\"modal-content\">\n        <div class=\"modal-header\">\n            <h3>创建新用户</h3>\n        </div>\n        <form method=\"post\" action=\"/dashboard/users\">\n            <div class=\"field\">\n                <label for=\"new-username\">用户名</label>\n                <input type=\"text\" id=\"new-username\" name=\"username\" required>\n            </div>\n            <div class=\"field\">\n                <label for=\"new-password\">密码</label>\n                <input type=\"password\" id=\"new-password\" name=\"password\" required>\n            </div>\n            <div class=\"field\">\n                <label for=\"new-group\">额度组</label>\n                <select id=\"new-group\" name=\"usage_group_id\" required>\n                    ";
/// The user creation controls, part 1.
pub const USER_CONTROLS_1: &'static str = "\n                </select>\n            </div>\n            <div class=\"field checkbox\">\n                <label><input type=\"checkbox\" name=\"is_admin\" value=\"on\"> 授予管理员权限</label>\n            </div>\n            <div class=\"modal-actions\">\n                <button type=\"button\" class=\"btn-sm\" onclick=\"closeCreateUserModal()\">取消</button>\n                <button type=\"submit\" class=\"btn-primary\">创建用户</button>\n            </div>\n        </form>\n    </div>\n</div>";
/// A usage group panel, part 0.
pub const GROUP_SECTION_0: &'static str = "<section class=\"admin collapsible-section group-panel\">\n    <h2 class=\"section-header\">\n        <span class=\"toggle-icon\">▶</span> 额度组：";
/// A usage group panel, part 1.
pub const GROUP_SECTION_1: &'static str = "\n        <button class=\"btn-sm\" onclick=\"toggleSection('";
/// A usage group panel, part 2.
pub const GROUP_SECTION_2: &'static str = "')\">Edit</button>\n    </h2>\n    <div class=\"section-content collapsed\" id=\"content-";
/// A usage group panel, part 3.
pub const GROUP_SECTION_3: &'static str = "\">\n        <p class=\"meta-note\">";
/// A usage group panel, part 4.
pub const GROUP_SECTION_4: &'static str = "</p>\n        <form method=\"post\" action=\"/dashboard/usage-groups\">\n            <input type=\"hidden\" name=\"group_id\" value=\"";
/// A usage group panel, part 5.
pub const GROUP_SECTION_5: &'static str = "\">\n            <div class=\"field\">\n                <label for=\"group-name-";
/// A usage group panel, part 6.
pub const GROUP_SECTION_6: &'static str = "\">组名称</label>\n                <input type=\"text\" id=\"group-name-";
/// A usage group panel, part 7.
pub const GROUP_SECTION_7: &'static str = "\" name=\"name\" value=\"";
/// A usage group panel, part 8.
pub const GROUP_SECTION_8: &'static str = "\" required>\n            </div>\n            <div class=\"field\">\n                <label for=\"group-desc-";
/// A usage group panel, part 9.
pub const GROUP_SECTION_9: &'static str = "\">描述</label>\n                <input type=\"text\" id=\"group-desc-";
/// A usage group panel, part 10.
pub const GROUP_SECTION_10: &'static str = "\" name=\"description\"";
/// A usage group panel, part 11.
pub const GROUP_SECTION_11: &'static str = " placeholder=\"可选\">\n            </div>\n            ";
/// A usage group panel, part 12.
pub const GROUP_SECTION_12: &'static str = "\n            <div class=\"action-stack\">\n                <button type=\"submit\" class=\"btn-primary\">保存额度</button>\n                <button type=\"button\" class=\"btn-sm\" onclick=\"toggleSection('";
/// A usage group panel, part 13.
pub const GROUP_SECTION_13: &'static str = "')\">Cancel</button>\n            </div>\n        </form>\n    </div>\n</section>";
/// The usage group creation panel, part 0.
pub const NEW_GROUP_SECTION_0: &'static str = "<section class=\"admin\">\n    <h2>创建新额度组</h2>\n    <button class=\"btn-primary\" onclick=\"openCreateGroupModal()\" type=\"button\">+ 创建额度组</button>\n    <div id=\"create-group-modal\" class=\"modal\">\n        <div class=\"modal-content modal-large\">\n            <div class=\"modal-header\">\n                <h3>新额度组</h3>\n            </div>\n            <form method=\"post\" action=\"/dashboard/usage-groups\">\n                <input type=\"hidden\" name=\"group_id\" value=\"\">\n                <div class=\"field\">\n                    <label for=\"new-group-name\">组名称</label>\n                    <input type=\"text\" id=\"new-group-name\" name=\"name\" required>\n                </div>\n                <div class=\"field\">\n                    <label for=\"new-group-desc\">描述</label>\n                    <input type=\"text\" id=\"new-group-desc\" name=\"description\" placeholder=\"可选\">\n                </div>\n                ";
/// The usage group creation panel, part 1.
pub const NEW_GROUP_SECTION_1: &'static str = "\n                <div class=\"modal-actions\">\n                    <button type=\"button\" class=\"btn-sm\" onclick=\"closeCreateGroupModal()\">取消</button>\n                    <button type=\"submit\" class=\"btn-primary\">保存额度</button>\n                </div>\n            </form>\n        </div>\n    </div>\n</section>";
/// The dashboard page, part 0.
pub const DASHBOARD_PAGE_0: &'static str = "<!DOCTYPE html>\n<html lang=\"zh-CN\">\n<head>\n    <meta charset=\"UTF-8\">\n    <title>使用情况仪表盘</title>\n    <meta name=\"viewport\" content=\"width=device-width, initial-scale=1\">\n    <meta name=\"robots\" content=\"noindex,nofollow\">\n    <style>\n        :root { color-scheme: light; }\n        * { box-sizing: border-box; }\n        body { font-family: \"Helvetica Neue\", Arial, sans-serif; margin: 0; background: #f8fafc; color: #0f172a; line-height: 1.6; }\n        header { background: #ffffff; padding: 2rem 1.5rem; border-bottom: 1px solid #e2e8f0; box-shadow: 0 1px 3px rgba(0, 0, 0, 0.05); }\n        .header-bar { display: flex; justify-content: space-between; align-items: center; flex-wrap: wrap; gap: 1rem; }\n        .back-link { display: inline-flex; align-items: center; gap: 0.4rem; color: #1d4ed8; text-decoration: none; font-weight: 600; background: #e0f2fe; padding: 0.5rem 0.95rem; border-radius: 999px; border: 1px solid #bfdbfe; transition: all 0.2s ease; }\n        .back-link:hover { background: #bfdbfe; border-color: #93c5fd; }\n        .back-link:focus { outline: none; box-shadow: 0 0 0 3px rgba(37, 99, 235, 0.2); }\n        main { padding: 2rem 1.5rem; max-width: 1200px; margin: 0 auto; }\n\n        /* Table styles with responsive wrapper */\n        .table-wrapper { width: 100%; overflow-x: auto; -webkit-overflow-scrolling: touch; background: #ffffff; border-radius: 12px; box-shadow: 0 4px 6px -1px rgba(0, 0, 0, 0.1), 0 2px 4px -1px rgba(0, 0, 0, 0.06); }\n        table { width: 100%; min-width: 800px; border-collapse: collapse; }\n        thead { background: linear-gradient(to bottom, #f8fafc, #f1f5f9); }\n        th { padding: 1rem 1rem; border-bottom: 2px solid #e2e8f0; text-align: left; font-weight: 700; color: #475569; font-size: 0.875rem; text-transform: uppercase; letter-spacing: 0.05em; }\n        td { padding: 1rem 1rem; border-bottom: 1px solid #e2e8f0; }\n        tr.user-row { cursor: pointer; transition: all 0.2s ease; }\n        tr.user-row:hover { background: #f8fafc; }\n        tr.user-row.expanded { background: #dbeafe; }\n        tr.user-row.current-user { border-left: 4px solid #2563eb; }\n        tr.user-detail-row td { background: #f8fafc; padding: 1.5rem; }\n        .expand-icon { display: inline-block; transition: transform 0.2s ease; font-size: 0.75rem; color: #64748b; }\n        tr.user-row.expanded .expand-icon { transform: rotate(90deg); }\n        .usage-summary { font-weight: 600; color: #1e293b; }\n        .usage-grid { display: grid; gap: 0.75rem; grid-template-columns: repeat(auto-fill, minmax(200px, 1fr)); }\n        .usage-chip { background: linear-gradient(to bottom, #ffffff, #f8fafc); border: 1px solid #e2e8f0; border-radius: 8px; padding: 1rem; display: flex; flex-direction: column; gap: 0.5rem; transition: all 0.2s ease; }\n        .usage-chip:hover { border-color: #cbd5e1; box-shadow: 0 2px 4px rgba(0, 0, 0, 0.05); }\n        .usage-chip .chip-title { font-weight: 600; color: #1d4ed8; font-size: 0.875rem; }\n\n        /* Button styles */\n        button { font-family: inherit; cursor: pointer; transition: all 0.2s ease; border: none; font-size: 0.9375rem; }\n        button:disabled { opacity: 0.5; cursor: not-allowed; }\n        .btn-primary { padding: 0.75rem 1.5rem; border-radius: 8px; background: #2563eb; color: #ffffff; font-weight: 600; box-shadow: 0 1px 2px rgba(0, 0, 0, 0.05); }\n        .btn-primary:hover:not(:disabled) { background: #1d4ed8; box-shadow: 0 4px 6px -1px rgba(37, 99, 235, 0.3); }\n        .btn-primary:focus { outline: none; box-shadow: 0 0 0 3px rgba(37, 99, 235, 0.2); }\n        .btn-sm { padding: 0.5rem 1rem; border-radius: 6px; background: #64748b; color: #ffffff; font-weight: 500; font-size: 0.875rem; }\n        .btn-sm:hover:not(:disabled) { background: #475569; }\n        .btn-sm:focus { outline: none; box-shadow: 0 0 0 3px rgba(100, 116, 139, 0.2); }\n        .btn-warning { background: #f59e0b; color: #ffffff; padding: 0.5rem 1rem; border-radius: 6px; font-weight: 500; font-size: 0.875rem; }\n        .btn-warning:hover:not(:disabled) { background: #d97706; box-shadow: 0 2px 4px rgba(245, 158, 11, 0.3); }\n        .btn-warning:focus { outline: none; box-shadow: 0 0 0 3px rgba(245, 158, 11, 0.2); }\n\n        /* Form styles */\n        .field { display: flex; flex-direction: column; gap: 0.5rem; margin-bottom: 1rem; }\n        .field label { font-weight: 600; color: #0f172a; font-size: 0.9375rem; }\n        .field input[type=\"text\"],\n        .field input[type=\"password\"],\n        .field input[type=\"number\"],\n        .field input:not([type]) { padding: 0.75rem 1rem; border-radius: 8px; border: 1px solid #cbd5e1; background: #ffffff; color: #0f172a; font-size: 1rem; transition: all 0.2s ease; width: 100%; }\n        .field input[type=\"text\"]:hover,\n        .field input[type=\"password\"]:hover,\n        .field input[type=\"number\"]:hover,\n        .field input:not([type]):hover { border-color: #94a3b8; }\n        .field input[type=\"text\"]:focus,\n        .field input[type=\"password\"]:focus,\n        .field input[type=\"number\"]:focus,\n        .field input:not([type]):focus { outline: none; border-color: #2563eb; box-shadow: 0 0 0 3px rgba(37, 99, 235, 0.12); }\n        .field input[type=\"text\"]::placeholder,\n        .field input[type=\"password\"]::placeholder,\n        .field input[type=\"number\"]::placeholder,\n        .field input:not([type])::placeholder { color: #94a3b8; }\n        .field input[type=\"number\"]::-webkit-inner-spin-button,\n        .field input[type=\"number\"]::-webkit-outer-spin-button { opacity: 0.6; }\n        .field input[type=\"number\"]:hover::-webkit-inner-spin-button,\n        .field input[type=\"number\"]:hover::-webkit-outer-spin-button { opacity: 1; }\n        .field select { padding: 0.75rem 1rem; border-radius: 8px; border: 1px solid #cbd5e1; background: #ffffff; color: #0f172a; font-size: 1rem; cursor: pointer; transition: all 0.2s ease; width: 100%; }\n        .field select:hover { border-color: #94a3b8; }\n        .field select:focus { outline: none; border-color: #2563eb; box-shadow: 0 0 0 3px rgba(37, 99, 235, 0.12); }\n        .field.checkbox { flex-direction: row; align-items: center; gap: 0.75rem; }\n        .field.checkbox label { margin: 0; font-weight: 500; }\n        .field input[type=\"checkbox\"] { width: 1.25rem; height: 1.25rem; cursor: pointer; border: 2px solid #cbd5e1; border-radius: 4px; }\n        .field input[type=\"checkbox\"]:focus { outline: none; box-shadow: 0 0 0 3px rgba(37, 99, 235, 0.2); }\n        .field-set { padding: 1.5rem; border: 1px solid #e2e8f0; border-radius: 12px; background: #f8fafc; margin-bottom: 1.5rem; }\n        .field-set h3 { margin: 0 0 1rem 0; color: #1e293b; font-size: 1.125rem; font-weight: 600; }\n        .dual-inputs { display: grid; grid-template-columns: repeat(auto-fit, minmax(250px, 1fr)); gap: 1rem; }\n        .inline-form { margin: 0; display: inline; }\n        .inline-select { padding: 0.5rem 0.75rem; border-radius: 6px; border: 1px solid #cbd5e1; background: #ffffff; color: #0f172a; font-size: 0.875rem; cursor: pointer; transition: all 0.2s ease; }\n        .inline-select:hover { border-color: #94a3b8; }\n        .inline-select:focus { outline: none; border-color: #2563eb; box-shadow: 0 0 0 3px rgba(37, 99, 235, 0.12); }\n\n        /* Admin section styles */\n        .admin { margin-top: 2rem; padding: 2rem; background: #ffffff; border-radius: 12px; box-shadow: 0 4px 6px -1px rgba(0, 0, 0, 0.1), 0 2px 4px -1px rgba(0, 0, 0, 0.06); border: 1px solid #e2e8f0; }\n        .admin h2 { margin-top: 0; margin-bottom: 1.5rem; color: #1e293b; font-size: 1.5rem; font-weight: 700; }\n        .collapsible-section { border: none; padding: 0; }\n        .section-header { margin: 0; padding: 1rem 1.25rem; background: #f1f5f9; border-bottom: 1px solid #e2e8f0; cursor: pointer; display: flex; align-items: center; gap: 0.75rem; font-size: 1.05rem; transition: all 0.2s ease; }\n        .section-header:hover { background: #e2e8f0; }\n        .section-header:focus { outline: 2px solid #2563eb; outline-offset: -2px; }\n        .toggle-icon { font-size: 0.85rem; color: #475569; transition: transform 0.2s ease; }\n        .section-content { padding: 1.5rem 1.25rem; display: none; flex-direction: column; gap: 1.5rem; }\n        .section-content.collapsed { display: none; }\n        .section-content:not(.collapsed) { display: flex; }\n        .meta-note { margin-bottom: 0.75rem; color: #64748b; font-size: 0.9375rem; }\n        .group-panel { margin-top: 1rem; margin-bottom: 1rem; border: 1px solid #e2e8f0; border-radius: 12px; background: #ffffff; overflow: hidden; }\n        .group-panel .section-header { border-radius: 0; margin: 0; }\n        .group-panel .section-content { border-radius: 0; }\n        .section-title { color: #1d4ed8; margin-top: 3rem; margin-bottom: 1rem; font-size: 1.5rem; font-weight: 700; border-bottom: 2px solid #e2e8f0; padding-bottom: 0.5rem; }\n        .action-stack { display: flex; gap: 0.75rem; margin-top: 1.5rem; }\n        .actions { display: flex; gap: 0.5rem; justify-content: flex-end; align-items: center; }\n        .admin-actions { margin: 1.5rem 0; display: flex; gap: 0.75rem; flex-wrap: wrap; }\n\n        /* Modal styles */\n        .modal { display: none; position: fixed; z-index: 1000; left: 0; top: 0; width: 100%; height: 100%; background: rgba(15, 23, 42, 0.6); backdrop-filter: blur(2px); animation: fadeIn 0.2s ease; }\n        @keyframes fadeIn { from { opacity: 0; } to { opacity: 1; } }\n        .modal-content { background: #ffffff; margin: 5% auto; padding: 0; border-radius: 12px; max-width: 480px; box-shadow: 0 20px 25px -5px rgba(0, 0, 0, 0.1), 0 10px 10px -5px rgba(0, 0, 0, 0.04); animation: slideUp 0.3s ease; }\n        @keyframes slideUp { from { transform: translateY(20px); opacity: 0; } to { transform: translateY(0); opacity: 1; } }\n        .modal-content.modal-large { max-width: 700px; max-height: 85vh; overflow-y: auto; }\n        .modal-content.modal-large::-webkit-scrollbar { width: 8px; }\n        .modal-content.modal-large::-webkit-scrollbar-track { background: #f1f5f9; }\n        .modal-content.modal-large::-webkit-scrollbar-thumb { background: #cbd5e1; border-radius: 4px; }\n        .modal-content.modal-large::-webkit-scrollbar-thumb:hover { background: #94a3b8; }\n        .modal-header { padding: 1.5rem 2rem; border-bottom: 1px solid #e2e8f0; }\n        .modal-header h3 { margin: 0; color: #0f172a; font-size: 1.25rem; font-weight: 700; }\n        .modal form { padding: 2rem; }\n        .modal-actions { display: flex; gap: 0.75rem; justify-content: flex-end; margin-top: 1.5rem; padding-top: 1.5rem; border-top: 1px solid #e2e8f0; }\n\n        /* Footer */\n        .app-footer { margin-top: 4rem; padding: 2rem 0; text-align: center; font-size: 0.875rem; color: #94a3b8; }\n\n        /* Responsive design */\n        @media (max-width: 768px) {\n            main { padding: 1rem; }\n            .header-bar { flex-direction: column; align-items: flex-start; }\n            .dual-inputs { grid-template-columns: 1fr; }\n            .usage-grid { grid-template-columns: 1fr; }\n            .modal-content { margin: 10% 1rem; max-width: calc(100% - 2rem); }\n            .admin { padding: 1rem; }\n            th, td { padding: 0.75rem 0.5rem; font-size: 0.875rem; }\n        }\n    </style>\n</head>\n<body>\n    <header>\n        <div class=\"header-bar\">\n            <h1>使用情况仪表盘</h1>\n            <a class=\"back-link\" href=\"/\">← 返回首页</a>\n        </div>\n        <p>管理账号额度，并进入各模块的配置页面。</p>\n    </header>\n    <main>\n        <p data-user-id=\"";
/// The dashboard page, part 1.
pub const DASHBOARD_PAGE_1: &'static str = "\">当前登录：<strong>";
/// The dashboard page, part 2.
pub const DASHBOARD_PAGE_2: &'static str = "</strong>。</p>\n        ";
/// The dashboard page, part 3.
pub const DASHBOARD_PAGE_3: &'static str = "\n        <div class=\"table-wrapper\">\n            <table>\n                <thead>\n                    <tr><th>用户名</th><th>额度组</th><th>角色</th><th>近 7 日使用（摘要）</th><th>操作</th></tr>\n                </thead>\n                <tbody>\n                    ";
/// The dashboard page, part 4.
pub const DASHBOARD_PAGE_4: &'static str = "\n                </tbody>\n            </table>\n        </div>\n        ";
/// The dashboard page, part 5.
pub const DASHBOARD_PAGE_5: &'static str = "\n        <section class=\"admin collapsible-section\">\n            <h2 class=\"section-header\" onclick=\"toggleSection('group-management')\">\n                <span class=\"toggle-icon\" id=\"icon-group-management\">▶</span> 管理额度组\n            </h2>\n            <div class=\"section-content collapsed\" id=\"content-group-management\">\n                ";
/// The dashboard page, part 6.
pub const DASHBOARD_PAGE_6: &'static str = "\n                ";
/// The dashboard page, part 7.
pub const DASHBOARD_PAGE_7: &'static str = "\n            </div>\n        </section>\n        <div id=\"password-modal\" class=\"modal\">\n            <div class=\"modal-content\">\n                <div class=\"modal-header\">\n                    <h3>重置密码</h3>\n                </div>\n                <form id=\"password-reset-form\" method=\"post\" action=\"/dashboard/users/password\">\n                    <input type=\"hidden\" name=\"username\" value=\"\">\n                    <p>为用户 <strong id=\"reset-username-display\"></strong> 设置新密码：</p>\n                    <div class=\"field\">\n                        <label for=\"modal-password-input\">新密码</label>\n                        <input id=\"modal-password-input\" type=\"password\" name=\"password\" required>\n                    </div>\n                    <div class=\"modal-actions\">\n                        <button type=\"button\" class=\"btn-sm\" onclick=\"closeModal()\">取消</button>\n                        <button type=\"submit\" class=\"btn-primary\">确认重置</button>\n                    </div>\n                </form>\n            </div>\n        </div>\n        ";
/// The dashboard page, part 8.
pub const DASHBOARD_PAGE_8: &'static str = "\n    </main>\n    <script>\n        function toggleUserDetails(userId) {\n            const detailRow = document.getElementById('detail-' + userId);\n            const userRow = document.querySelector('tr.user-row[data-user-id=\"' + userId + '\"]');\n\n            if (detailRow.style.display === 'none') {\n                detailRow.style.display = 'table-row';\n                userRow.classList.add('expanded');\n            } else {\n                detailRow.style.display = 'none';\n                userRow.classList.remove('expanded');\n            }\n        }\n\n        function toggleSection(sectionId) {\n            const content = document.getElementById('content-' + sectionId);\n            const icon = document.getElementById('icon-' + sectionId);\n\n            if (content.classList.contains('collapsed')) {\n                content.classList.remove('collapsed');\n                if (icon) {\n                    icon.textContent = '▼';\n                }\n            } else {\n                content.classList.add('collapsed');\n                if (icon) {\n                    icon.textContent = '▶';\n                }\n            }\n        }\n\n        function resetPassword(buttonElement) {\n            const username = buttonElement.getAttribute('data-username');\n            const modal = document.getElementById('password-modal');\n            const usernameSpan = document.getElementById('reset-username-display');\n            const passwordInput = document.getElementById('modal-password-input');\n            const form = document.getElementById('password-reset-form');\n\n            usernameSpan.textContent = username;\n            form.querySelector('input[name=\"username\"]').value = username;\n            passwordInput.value = '';\n\n            modal.style.display = 'block';\n            passwordInput.focus();\n        }\n\n        function closeModal() {\n            document.getElementById('password-modal').style.display = 'none';\n        }\n\n        function openCreateUserModal() {\n            const modal = document.getElementById('create-user-modal');\n            modal.style.display = 'block';\n            document.getElementById('new-username').focus();\n        }\n\n        function closeCreateUserModal() {\n            document.getElementById('create-user-modal').style.display = 'none';\n        }\n\n        function openCreateGroupModal() {\n            const modal = document.getElementById('create-group-modal');\n            modal.style.display = 'block';\n            document.getElementById('new-group-name').focus();\n        }\n\n        function closeCreateGroupModal() {\n            document.getElementById('create-group-modal').style.display = 'none';\n        }\n\n        window.onclick = function(event) {\n            const passwordModal = document.getElementById('password-modal');\n            const createUserModal = document.getElementById('create-user-modal');\n            const createGroupModal = document.getElementById('create-group-modal');\n\n            if (event.target === passwordModal) {\n                closeModal();\n            } else if (event.target === createUserModal) {\n                closeCreateUserModal();\n            } else if (event.target === createGroupModal) {\n                closeCreateGroupModal();\n            }\n        }\n    </script>\n</body>\n</html>";
/// The token limit field of a group, part 0.
pub const TOKEN_FIELDS_0: &'static str = "<div class=\"field-set\">\n        <h3>全部模块</h3>\n        <div class=\"field\">\n            <label for=\"tokens-global-";
/// The token limit field of a group, part 1.
pub const TOKEN_FIELDS_1: &'static str = "\">令牌上限（近 7 日，全部模块共享）</label>\n            <input type=\"number\" id=\"tokens-global-";
/// The token limit field of a group, part 2.
pub const TOKEN_FIELDS_2: &'static str = "\" name=\"tokens_global\"";
/// The token limit field of a group, part 3.
pub const TOKEN_FIELDS_3: &'static str = " placeholder=\"留空表示不限\" min=\"0\">\n        </div>\n    </div>";
/// A module limit field of a group, part 0.
pub const UNIT_FIELDS_0: &'static str = "<div class=\"field-set\">\n        <h3>";
/// A module limit field of a group, part 1.
pub const UNIT_FIELDS_1: &'static str = "</h3>\n        <div class=\"field\">\n            <label for=\"units-";
/// A module limit field of a group, part 2.
pub const UNIT_FIELDS_2: &'static str = "-";
/// A module limit field of a group, part 3.
pub const UNIT_FIELDS_3: &'static str = "\">";
/// A module limit field of a group, part 4.
pub const UNIT_FIELDS_4: &'static str = "（近 7 日）</label>\n            <input type=\"number\" id=\"units-";
/// A module limit field of a group, part 5.
pub const UNIT_FIELDS_5: &'static str = "-";
/// A module limit field of a group, part 6.
pub const UNIT_FIELDS_6: &'static str = "\" name=\"units_";
/// A module limit field of a group, part 7.
pub const UNIT_FIELDS_7: &'static str = "\"";
/// A module limit field of a group, part 8.
pub const UNIT_FIELDS_8: &'static str = " placeholder=\"留空表示不限\" min=\"0\">\n        </div>\n    </div>";
/// A module limit field of a new group, part 0.
pub const NEW_UNIT_FIELDS_0: &'static str = "<div class=\"field-set\">\n        <h3>";
/// A module limit field of a new group, part 1.
pub const NEW_UNIT_FIELDS_1: &'static str = "</h3>\n        <div class=\"field\">\n            <label for=\"new-units-";
/// A module limit field of a new group, part 2.
pub const NEW_UNIT_FIELDS_2: &'static str = "\">";
/// A module limit field of a new group, part 3.
pub const NEW_UNIT_FIELDS_3: &'static str = "（近 7 日）</label>\n            <input type=\"number\" id=\"new-units-";
/// A module limit field of a new group, part 4.
pub const NEW_UNIT_FIELDS_4: &'static str = "\" name=\"units_";
/// A module limit field of a new group, part 5.
pub const NEW_UNIT_FIELDS_5: &'static str = "\" placeholder=\"留空表示不限\" min=\"0\">\n        </div>\n    </div>";
/// The token limit field of a new group.
pub const NEW_TOKEN_FIELDS: &'static str = "<div class=\"field-set\">\n        <h3>全部模块</h3>\n        <div class=\"field\">\n            <label for=\"new-tokens-global\">令牌上限（近 7 日，全部模块共享）</label>\n            <input type=\"number\" id=\"new-tokens-global\" name=\"tokens_global\" placeholder=\"留空表示不限\" min=\"0\">\n        </div>\n    </div>";
/// The index of the last group with the given id.
pub fn find_group(groups: &[UsageGroupDisplay], id: &str) -> (res: Option<usize>)
    ensures
        match res {
            Some(i) => group_index(groups@, id@, groups@.len() as int) == Some(i as int) && i < groups@.len(),
            None => group_index(groups@, id@, groups@.len() as int) is None,
        },
{
    let mut found: Option<usize> = None;
    let mut k: usize = 0;
    while k < groups.len()
        invariant
            k <= groups@.len(),
            match found {
                Some(i) => group_index(groups@, id@, k as int) == Some(i as int) && i < k,
                None => group_index(groups@, id@, k as int) is None,
            },
        decreases groups.len() - k,
    {
        if str_eq(groups[k].id.as_str(), id) {
            found = Some(k);
        }
        k = k + 1;
    }
    found
}

fn usage_of(usage: &Option<UserUsage>, k: usize) -> (res: ModuleUsage)
    ensures
        res == module_usage(*usage, k as int),
{
    match usage {
        Some(u) => {
            if k < u.modules.len() {
                match u.modules[k] {
                    Some(m) => m,
                    None => ModuleUsage { units: 0, tokens: 0 },
                }
            } else {
                ModuleUsage { units: 0, tokens: 0 }
            }
        },
        None => ModuleUsage { units: 0, tokens: 0 },
    }
}

fn limit_of(group: &UsageGroupDisplay, k: usize) -> (res: Option<i64>)
    ensures
        res == unit_limit(*group, k as int),
{
    if k < group.unit_limits.len() {
        group.unit_limits[k]
    } else {
        None
    }
}

fn limit_at(groups: &[UsageGroupDisplay], gi: Option<usize>, k: usize) -> (res: Option<i64>)
    requires
        gi matches Some(i) ==> i < groups@.len(),
    ensures
        res == unit_limit_at(groups@, match gi { Some(i) => Some(i as int), None => None }, k as int),
{
    match gi {
        Some(i) => limit_of(&groups[i], k),
        None => None,
    }
}

fn render_limit_attr(limit: Option<i64>) -> (res: String)
    ensures
        res@ == limit_attr(limit),
{
    limit_value_attr(limit)
}

/// `user.usage_group_id`'s group, as an index of `groups`.
pub open spec fn opt_int(o: Option<usize>) -> Option<int> {
    match o {
        Some(i) => Some(i as int),
        None => None,
    }
}

fn render_module_chips(user: &DashboardUser, groups: &[UsageGroupDisplay], gi: Option<usize>) -> (res: String)
    requires
        opt_int(gi) == user_group(groups@, *user),
        gi matches Some(i) ==> i < groups@.len(),
    ensures
        res@ == module_chips(*user, groups@, 3),
{
    let mods = registered_modules();
    assert(mods@ =~= module_descriptors());
    let mut out = String::new();
    let mut k: usize = 0;
    while k < 3
        invariant
            k <= 3,
            mods@ == module_descriptors(),
            opt_int(gi) == user_group(groups@, *user),
            gi matches Some(i) ==> i < groups@.len(),
            out@ == module_chips(*user, groups@, k as int),
        decreases 3 - k,
    {
        let d = mods[k];
        let m = usage_of(&user.usage, k);
        let limit = limit_at(groups, gi, k);
        let ghost before = out@;
        push_str(&mut out, "<div class=\"usage-chip\"><span class=\"chip-title\">");
        let label = escape_html(d.label);
        push_str(&mut out, label.as_str());
        push_str(&mut out, "</span><span>");
        let unit_text = usage_text(m.units, limit, d.unit_label);
        let unit_escaped = escape_html(unit_text.as_str());
        push_str(&mut out, unit_escaped.as_str());
        push_str(&mut out, "</span><span>");
        let mut tokens = String::new();
        push_signed_decimal(&mut tokens, m.tokens);
        push_str(&mut tokens, " 令牌");
        let tokens_escaped = escape_html(tokens.as_str());
        push_str(&mut out, tokens_escaped.as_str());
        push_str(&mut out, "</span></div>");
        assert(out@ =~= before + module_chip(d.label@, usage_figure(m.units, limit, d.unit_label@), m.tokens));
        k = k + 1;
    }
    out
}

fn units_total(user: &DashboardUser) -> (res: i64)
    requires
        units_fit(*user),
    ensures
        res == units_sum(user.usage, 3),
{
    let mut total: i64 = 0;
    let mut k: usize = 0;
    while k < 3
        invariant
            k <= 3,
            units_fit(*user),
            total == units_sum(user.usage, k as int),
        decreases 3 - k,
    {
        let m = usage_of(&user.usage, k);
        assert(i64::MIN <= units_sum(user.usage, k + 1) <= i64::MAX);
        total = total + m.units;
        k = k + 1;
    }
    total
}

fn render_select_options(groups: &[UsageGroupDisplay], selected_id: &str) -> (res: String)
    ensures
        res@ == select_options(groups@, selected_id@, groups@.len() as int),
{
    let mut out = String::new();
    let mut k: usize = 0;
    while k < groups.len()
        invariant
            k <= groups@.len(),
            out@ == select_options(groups@, selected_id@, k as int),
        decreases groups.len() - k,
    {
        let ghost before = out@;
        let selected = str_eq(groups[k].id.as_str(), selected_id);
        push_group_option(&mut out, groups[k].id.as_str(), groups[k].name.as_str(), selected);
        assert(out@ =~= before + group_option(groups@[k as int].id@, groups@[k as int].name@, groups@[k as int].id@ == selected_id@));
        k = k + 1;
    }
    out
}

fn push_group_option(out: &mut String, id: &str, name: &str, selected: bool)
    ensures
        final(out)@ == old(out)@ + group_option(id@, name@, selected),
{
    let ghost before = out@;
    push_str(out, "<option value=\"");
    let id_escaped = escape_html(id);
    push_str(out, id_escaped.as_str());
    push_str(out, "\"");
    if selected {
        push_str(out, " selected");
    }
    push_str(out, ">");
    let name_escaped = escape_html(name);
    push_str(out, name_escaped.as_str());
    push_str(out, "</option>");
    proof {
        reveal_strlit("");
    }
    assert(out@ =~= before + group_option(id@, name@, selected));
}

fn render_token_text(user: &DashboardUser, groups: &[UsageGroupDisplay], gi: Option<usize>) -> (res: String)
    requires
        opt_int(gi) == user_group(groups@, *user),
        gi matches Some(i) ==> i < groups@.len(),
    ensures
        res@ == token_text(*user, groups@),
{
    let tokens = match &user.usage {
        Some(u) => u.global_tokens,
        None => 0,
    };
    let limit = match gi {
        Some(i) => groups[i].token_limit,
        None => None,
    };
    usage_text(tokens, limit, "令牌")
}

fn render_group_select(user: &DashboardUser, groups: &[UsageGroupDisplay]) -> (res: String)
    ensures
        res@ == group_select_html(*user, groups@),
{
    let name = escape_html(user.username.as_str());
    let options = render_select_options(groups, user.usage_group_id.as_str());
    let mut out = to_owned_string(SELECT_FORM_0);
    push_str(&mut out, name.as_str());
    push_str(&mut out, SELECT_FORM_1);
    push_str(&mut out, "<input type=\"hidden\" name=\"username\" value=\"");
    push_str(&mut out, name.as_str());
    push_str(&mut out, "\">");
    push_str(&mut out, SELECT_OPEN);
    push_str(&mut out, options.as_str());
    push_str(&mut out, "</select></form>");
    assert(out@ =~= group_select_html(*user, groups@));
    out
}

/// The hidden row of a user with the usage chips.
pub open spec fn detail_row(user: DashboardUser, groups: Seq<UsageGroupDisplay>) -> Seq<char> {
    DETAIL_0@ + user.id@ + DETAIL_1@ + "<div class=\"usage-grid\">"@ + global_chip(token_text(user, groups))
        + module_chips(user, groups, 3) + "</div>"@ + DETAIL_2@
}

fn render_detail_row(user: &DashboardUser, groups: &[UsageGroupDisplay], gi: Option<usize>, token_text: &str) -> (res: String)
    requires
        opt_int(gi) == user_group(groups@, *user),
        gi matches Some(i) ==> i < groups@.len(),
        token_text@ == crate::dashboard_page::token_text(*user, groups@),
    ensures
        res@ == detail_row(*user, groups@),
{
    let chips = render_module_chips(user, groups, gi);
    let global = escape_html(token_text);
    let mut out = to_owned_string(DETAIL_0);
    push_str(&mut out, user.id.as_str());
    push_str(&mut out, DETAIL_1);
    push_str(&mut out, "<div class=\"usage-grid\">");
    push_str(&mut out, "<div class=\"usage-chip\"><span class=\"chip-title\">全部模块</span><span>令牌合计</span><span>");
    push_str(&mut out, global.as_str());
    push_str(&mut out, "</span></div>");
    push_str(&mut out, chips.as_str());
    push_str(&mut out, "</div>");
    push_str(&mut out, DETAIL_2);
    assert(out@ =~= detail_row(*user, groups@));
    out
}

fn render_user_rows(user: &DashboardUser, groups: &[UsageGroupDisplay], current: &str) -> (res: String)
    requires
        units_fit(*user),
    ensures
        res@ == user_rows(*user, groups@, current@),
{
    let gi = find_group(groups, user.usage_group_id.as_str());
    let name = escape_html(user.username.as_str());
    let token_text = render_token_text(user, groups, gi);
    let total = units_total(user);
    let mut summary = String::new();
    push_signed_decimal(&mut summary, total);
    push_str(&mut summary, " 项 · ");
    push_str(&mut summary, token_text.as_str());
    assert(summary@ =~= usage_summary_text(*user, groups@));
    let summary_escaped = escape_html(summary.as_str());
    let select = render_group_select(user, groups);
    let detail = render_detail_row(user, groups, gi, token_text.as_str());
    let mut out = to_owned_string(ROW_0);
    if str_eq(user.username.as_str(), current) {
        push_str(&mut out, "current-user");
    }
    push_str(&mut out, ROW_1);
    push_str(&mut out, user.id.as_str());
    push_str(&mut out, ROW_2);
    push_str(&mut out, name.as_str());
    push_str(&mut out, ROW_3);
    push_str(&mut out, select.as_str());
    push_str(&mut out, ROW_4);
    if user.is_admin {
        push_str(&mut out, "管理员");
    } else {
        push_str(&mut out, "普通用户");
    }
    push_str(&mut out, ROW_5);
    push_str(&mut out, summary_escaped.as_str());
    push_str(&mut out, ROW_6);
    push_str(&mut out, user.id.as_str());
    push_str(&mut out, ROW_7);
    push_str(&mut out, name.as_str());
    push_str(&mut out, ROW_8);
    push_str(&mut out, detail.as_str());
    proof {
        reveal_strlit("");
    }
    assert(out@ =~= user_rows(*user, groups@, current@));
    out
}

fn render_table_body(users: &[DashboardUser], groups: &[UsageGroupDisplay], current: &str) -> (res: String)
    requires
        forall|i: int| 0 <= i < users@.len() ==> units_fit(#[trigger] users@[i]),
    ensures
        res@ == table_body(users@, groups@, current@),
{
    if users.len() == 0 {
        return "<tr><td colspan=\"5\">当前还没有用户。</td></tr>".to_owned();
    }
    let mut out = String::new();
    let mut k: usize = 0;
    while k < users.len()
        invariant
            k <= users@.len(),
            forall|i: int| 0 <= i < users@.len() ==> units_fit(#[trigger] users@[i]),
            out@ == table_rows(users@, groups@, current@, k as int),
        decreases users.len() - k,
    {
        let rows = render_user_rows(&users[k], groups, current);
        push_str(&mut out, rows.as_str());
        k = k + 1;
    }
    out
}

fn render_create_options(groups: &[UsageGroupDisplay]) -> (res: String)
    ensures
        res@ == create_options(groups@, groups@.len() as int),
{
    let mut out = String::new();
    let mut k: usize = 0;
    while k < groups.len()
        invariant
            k <= groups@.len(),
            out@ == create_options(groups@, k as int),
        decreases groups.len() - k,
    {
        push_group_option(&mut out, groups[k].id.as_str(), groups[k].name.as_str(), k == 0);
        k = k + 1;
    }
    out
}

fn render_unit_field(group: &UsageGroupDisplay, d: ModuleDescriptor, k: usize) -> (res: String)
    requires
        k < 3,
        d == module_descriptors()[k as int],
    ensures
        res@ == unit_field(*group, k as int),
{
    let mut fields = String::new();
    push_str(&mut fields, UNIT_FIELDS_0);
    let label = escape_html(d.label);
    push_str(&mut fields, label.as_str());
    push_str(&mut fields, UNIT_FIELDS_1);
    push_str(&mut fields, d.key);
    push_str(&mut fields, UNIT_FIELDS_2);
    push_str(&mut fields, group.id.as_str());
    push_str(&mut fields, UNIT_FIELDS_3);
    push_str(&mut fields, d.unit_label);
    push_str(&mut fields, UNIT_FIELDS_4);
    push_str(&mut fields, d.key);
    push_str(&mut fields, UNIT_FIELDS_5);
    push_str(&mut fields, group.id.as_str());
    push_str(&mut fields, UNIT_FIELDS_6);
    push_str(&mut fields, d.key);
    push_str(&mut fields, UNIT_FIELDS_7);
    let attr = render_limit_attr(limit_of(group, k));
    push_str(&mut fields, attr.as_str());
    push_str(&mut fields, UNIT_FIELDS_8);
    assert(fields@ =~= unit_field(*group, k as int));
    fields
}

fn render_group_fields(group: &UsageGroupDisplay) -> (res: String)
    ensures
        res@ == group_fields(*group),
{
    let mods = registered_modules();
    assert(mods@ =~= module_descriptors());
    let mut out = to_owned_string(TOKEN_FIELDS_0);
    push_str(&mut out, group.id.as_str());
    push_str(&mut out, TOKEN_FIELDS_1);
    push_str(&mut out, group.id.as_str());
    push_str(&mut out, TOKEN_FIELDS_2);
    let token_attr = render_limit_attr(group.token_limit);
    push_str(&mut out, token_attr.as_str());
    push_str(&mut out, TOKEN_FIELDS_3);
    let ghost head = out@;
    let mut fields = String::new();
    let mut k: usize = 0;
    while k < 3
        invariant
            k <= 3,
            mods@ == module_descriptors(),
            fields@ == unit_fields(*group, k as int),
        decreases 3 - k,
    {
        let ghost before = fields@;
        let field = render_unit_field(group, mods[k], k);
        push_str(&mut fields, field.as_str());
        assert(fields@ =~= before + unit_field(*group, k as int));
        k = k + 1;
    }
    push_str(&mut out, fields.as_str());
    assert(out@ =~= group_fields(*group));
    out
}

fn render_group_section(group: &UsageGroupDisplay) -> (res: String)
    ensures
        res@ == group_section(*group),
{
    let mut sid = to_owned_string("group-");
    push_str(&mut sid, group.id.as_str());
    let name = escape_html(group.name.as_str());
    let (desc, desc_attr) = match &group.description {
        Some(d) => {
            let e = escape_html(d.as_str());
            let mut attr = to_owned_string(" value=\"");
            push_str(&mut attr, e.as_str());
            push_str(&mut attr, "\"");
            (e, attr)
        },
        None => ("无描述".to_owned(), String::new()),
    };
    let fields = render_group_fields(group);
    let mut out = to_owned_string(GROUP_SECTION_0);
    push_str(&mut out, name.as_str());
    push_str(&mut out, GROUP_SECTION_1);
    push_str(&mut out, sid.as_str());
    push_str(&mut out, GROUP_SECTION_2);
    push_str(&mut out, sid.as_str());
    push_str(&mut out, GROUP_SECTION_3);
    push_str(&mut out, desc.as_str());
    push_str(&mut out, GROUP_SECTION_4);
    push_str(&mut out, group.id.as_str());
    push_str(&mut out, GROUP_SECTION_5);
    push_str(&mut out, group.id.as_str());
    push_str(&mut out, GROUP_SECTION_6);
    push_str(&mut out, group.id.as_str());
    push_str(&mut out, GROUP_SECTION_7);
    push_str(&mut out, name.as_str());
    push_str(&mut out, GROUP_SECTION_8);
    push_str(&mut out, group.id.as_str());
    push_str(&mut out, GROUP_SECTION_9);
    push_str(&mut out, group.id.as_str());
    push_str(&mut out, GROUP_SECTION_10);
    push_str(&mut out, desc_attr.as_str());
    push_str(&mut out, GROUP_SECTION_11);
    push_str(&mut out, fields.as_str());
    push_str(&mut out, GROUP_SECTION_12);
    push_str(&mut out, sid.as_str());
    push_str(&mut out, GROUP_SECTION_13);
    assert(out@ =~= group_section(*group));
    out
}

fn render_group_sections(groups: &[UsageGroupDisplay]) -> (res: String)
    ensures
        res@ == group_sections(groups@, groups@.len() as int),
{
    let mut out = String::new();
    let mut k: usize = 0;
    while k < groups.len()
        invariant
            k <= groups@.len(),
            out@ == group_sections(groups@, k as int),
        decreases groups.len() - k,
    {
        let section = render_group_section(&groups[k]);
        push_str(&mut out, section.as_str());
        k = k + 1;
    }
    out
}

fn render_new_group_section() -> (res: String)
    ensures
        res@ == new_group_section(),
{
    let mods = registered_modules();
    assert(mods@ =~= module_descriptors());
    let mut out = to_owned_string(NEW_GROUP_SECTION_0);
    push_str(&mut out, NEW_TOKEN_FIELDS);
    let ghost head = out@;
    let mut k: usize = 0;
    while k < 3
        invariant
            k <= 3,
            mods@ == module_descriptors(),
            out@ == head + (if k == 0 {
                Seq::empty()
            } else if k == 1 {
                new_unit_field(0)
            } else if k == 2 {
                new_unit_field(0) + new_unit_field(1)
            } else {
                new_unit_field(0) + new_unit_field(1) + new_unit_field(2)
            }),
        decreases 3 - k,
    {
        let d = mods[k];
        let ghost before = out@;
        push_str(&mut out, NEW_UNIT_FIELDS_0);
        let label = escape_html(d.label);
        push_str(&mut out, label.as_str());
        push_str(&mut out, NEW_UNIT_FIELDS_1);
        push_str(&mut out, d.key);
        push_str(&mut out, NEW_UNIT_FIELDS_2);
        push_str(&mut out, d.unit_label);
        push_str(&mut out, NEW_UNIT_FIELDS_3);
        push_str(&mut out, d.key);
        push_str(&mut out, NEW_UNIT_FIELDS_4);
        push_str(&mut out, d.key);
        push_str(&mut out, NEW_UNIT_FIELDS_5);
        assert(out@ =~= before + new_unit_field(k as int));
        k = k + 1;
    }
    push_str(&mut out, NEW_GROUP_SECTION_1);
    assert(out@ =~= new_group_section());
    out
}

/// Renders the dashboard of an administrator. Without any usage group the
/// page cannot be shown and the browser is sent to the login page.
pub fn render_dashboard_page(
    admin: &AuthUser,
    status: Option<&str>,
    error: Option<&str>,
    users: &[DashboardUser],
    groups: &[UsageGroupDisplay],
    footer: &str,
) -> (res: Result<String, &'static str>)
    requires
        forall|i: int| 0 <= i < users@.len() ==> units_fit(#[trigger] users@[i]),
    ensures
        groups@.len() == 0 ==> res is Err && res->Err_0@ == "/login"@,
        groups@.len() != 0 ==> res is Ok && res->Ok_0@ == dashboard_html(*admin, status, error, users@, groups@, footer@),
{
    if groups.len() == 0 {
        return Err("/login");
    }
    let flash = compose_flash_message(status, error);
    let rows = render_table_body(users, groups, admin.username.as_str());
    let options = render_create_options(groups);
    let sections = render_group_sections(groups);
    let new_group = render_new_group_section();
    let name = escape_html(admin.username.as_str());
    let mut out = to_owned_string(DASHBOARD_PAGE_0);
    push_str(&mut out, admin.id.as_str());
    push_str(&mut out, DASHBOARD_PAGE_1);
    push_str(&mut out, name.as_str());
    push_str(&mut out, DASHBOARD_PAGE_2);
    push_str(&mut out, flash.as_str());
    push_str(&mut out, DASHBOARD_PAGE_3);
    push_str(&mut out, rows.as_str());
    push_str(&mut out, DASHBOARD_PAGE_4);
    push_str(&mut out, USER_CONTROLS_0);
    push_str(&mut out, options.as_str());
    push_str(&mut out, USER_CONTROLS_1);
    push_str(&mut out, DASHBOARD_PAGE_5);
    push_str(&mut out, "<h2 class=\"section-title\">管理额度组</h2>");
    push_str(&mut out, sections.as_str());
    push_str(&mut out, DASHBOARD_PAGE_6);
    push_str(&mut out, new_group.as_str());
    push_str(&mut out, DASHBOARD_PAGE_7);
    push_str(&mut out, footer);
    push_str(&mut out, DASHBOARD_PAGE_8);
    assert(out@ =~= dashboard_html(*admin, status, error, users@, groups@, footer@));
    Ok(out)
}


/// `a + b`, held within the range of `i64`.
pub open spec fn saturating_sum(a: int, b: int) -> int {
    if a + b > i64::MAX {
        i64::MAX as int
    } else if a + b < i64::MIN {
        i64::MIN as int
    } else {
        a + b
    }
}

/// The tokens of all recorded modules, added in order without leaving the
/// range of `i64`.
pub open spec fn total_tokens(records: Seq<(String, i64, i64)>) -> int
    decreases records.len(),
{
    if records.len() == 0 {
        0
    } else {
        saturating_sum(total_tokens(records.drop_last()), records.last().1 as int)
    }
}

/// The first record of module `key`, as (tokens, units).
pub open spec fn module_record(records: Seq<(String, i64, i64)>, key: Seq<char>) -> Option<(i64, i64)>
    decreases records.len(),
{
    if records.len() == 0 {
        None
    } else if records[0].0@ == key {
        Some((records[0].1, records[0].2))
    } else {
        module_record(records.drop_first(), key)
    }
}

/// The usage of module `key` as the dashboard shows it.
pub open spec fn module_usage_of(records: Seq<(String, i64, i64)>, key: Seq<char>) -> Option<ModuleUsage> {
    match module_record(records, key) {
        Some((t, u)) => Some(ModuleUsage { units: u, tokens: t }),
        None => None,
    }
}

fn find_module_record(records: &Vec<(String, i64, i64)>, key: &str) -> (res: Option<(i64, i64)>)
    ensures
        res == module_record(records@, key@),
{
    let mut k: usize = 0;
    assert(records@.skip(0) =~= records@);
    while k < records.len()
        invariant
            k <= records@.len(),
            module_record(records@, key@) == module_record(records@.skip(k as int), key@),
        decreases records.len() - k,
    {
        assert(records@.skip(k as int).drop_first() =~= records@.skip(k + 1));
        assert(records@.skip(k as int)[0] == records@[k as int]);
        if str_eq(records[k].0.as_str(), key) {
            return Some((records[k].1, records[k].2));
        }
        k = k + 1;
    }
    None
}

/// A user's usage from the records of the window, one per module as
/// (module key, tokens, units): the tokens of all modules added without
/// leaving the range of `i64`, and the usage of each registered module.
pub fn user_usage(records: &Vec<(String, i64, i64)>) -> (res: UserUsage)
    ensures
        res.global_tokens == total_tokens(records@),
        res.modules@.len() == 3,
        forall|j: int| 0 <= j < 3 ==> #[trigger] res.modules@[j] == module_usage_of(records@, module_descriptors()[j].key@),
{
    let mut total: i64 = 0;
    let mut i: usize = 0;
    while i < records.len()
        invariant
            i <= records@.len(),
            total == total_tokens(records@.take(i as int)),
        decreases records.len() - i,
    {
        assert(records@.take(i + 1).drop_last() =~= records@.take(i as int));
        let t = records[i].1;
        total = match total.checked_add(t) {
            Some(v) => v,
            None => if t > 0 {
                i64::MAX
            } else {
                i64::MIN
            },
        };
        i = i + 1;
    }
    assert(records@.take(records@.len() as int) =~= records@);
    let mods = registered_modules();
    let mut modules: Vec<Option<ModuleUsage>> = Vec::new();
    let mut j: usize = 0;
    while j < 3
        invariant
            j <= 3,
            mods@.len() == 3,
            forall|m: int| 0 <= m < 3 ==> mods@[m] == module_descriptors()[m],
            modules@.len() == j,
            forall|m: int| 0 <= m < j ==> #[trigger] modules@[m] == module_usage_of(records@, module_descriptors()[m].key@),
        decreases 3 - j,
    {
        let found = find_module_record(records, mods[j].key);
        let entry = match found {
            Some((t, u)) => Some(ModuleUsage { units: u, tokens: t }),
            None => None,
        };
        modules.push(entry);
        j = j + 1;
    }
    UserUsage { global_tokens: total, modules }
}

/// The first limit record of module `key`, as (token limit, unit limit).
pub open spec fn limit_record(
    records: Seq<(String, Option<i64>, Option<i64>)>,
    key: Seq<char>,
) -> Option<(Option<i64>, Option<i64>)>
    decreases records.len(),
{
    if records.len() == 0 {
        None
    } else if records[0].0@ == key {
        Some((records[0].1, records[0].2))
    } else {
        limit_record(records.drop_first(), key)
    }
}

/// The token limit of a module: none when it has no record.
pub open spec fn module_token_limit(records: Seq<(String, Option<i64>, Option<i64>)>, key: Seq<char>) -> Option<i64> {
    match limit_record(records, key) {
        Some((t, _)) => t,
        None => None,
    }
}

/// The unit limit of a module: none when it has no record.
pub open spec fn module_unit_limit(records: Seq<(String, Option<i64>, Option<i64>)>, key: Seq<char>) -> Option<i64> {
    match limit_record(records, key) {
        Some((_, u)) => u,
        None => None,
    }
}

/// The token limit shown for a group: that of the first registered module
/// that has one.
pub open spec fn group_token_limit(records: Seq<(String, Option<i64>, Option<i64>)>, from: int) -> Option<i64>
    decreases 3 - from,
{
    if from >= 3 || from < 0 {
        None
    } else if module_token_limit(records, module_descriptors()[from].key@) is Some {
        module_token_limit(records, module_descriptors()[from].key@)
    } else {
        group_token_limit(records, from + 1)
    }
}

fn find_limit_record(records: &Vec<(String, Option<i64>, Option<i64>)>, key: &str) -> (res: Option<(Option<i64>, Option<i64>)>)
    ensures
        res == limit_record(records@, key@),
{
    let mut k: usize = 0;
    assert(records@.skip(0) =~= records@);
    while k < records.len()
        invariant
            k <= records@.len(),
            limit_record(records@, key@) == limit_record(records@.skip(k as int), key@),
        decreases records.len() - k,
    {
        assert(records@.skip(k as int).drop_first() =~= records@.skip(k + 1));
        assert(records@.skip(k as int)[0] == records@[k as int]);
        if str_eq(records[k].0.as_str(), key) {
            return Some((records[k].1, records[k].2));
        }
        k = k + 1;
    }
    None
}

/// A usage group as the dashboard shows it, from its limit records, one per
/// module as (module key, token limit, unit limit): the token limit of the
/// first registered module that has one, and each module's unit limit.
pub fn group_display(
    id: String,
    name: String,
    description: Option<String>,
    records: &Vec<(String, Option<i64>, Option<i64>)>,
) -> (res: UsageGroupDisplay)
    ensures
        res.id == id,
        res.name == name,
        res.description == description,
        res.token_limit == group_token_limit(records@, 0),
        res.unit_limits@.len() == 3,
        forall|j: int|
            0 <= j < 3 ==> #[trigger] res.unit_limits@[j] == module_unit_limit(records@, module_descriptors()[j].key@),
{
    let mods = registered_modules();
    let mut token_limit: Option<i64> = None;
    let mut unit_limits: Vec<Option<i64>> = Vec::new();
    let mut j: usize = 3;
    while j > 0
        invariant
            j <= 3,
            mods@.len() == 3,
            forall|m: int| 0 <= m < 3 ==> mods@[m] == module_descriptors()[m],
            token_limit == group_token_limit(records@, j as int),
        decreases j,
    {
        j = j - 1;
        let t = match find_limit_record(records, mods[j].key) {
            Some((t, _)) => t,
            None => None,
        };
        if t.is_some() {
            token_limit = t;
        }
    }
    let mut k: usize = 0;
    while k < 3
        invariant
            k <= 3,
            mods@.len() == 3,
            forall|m: int| 0 <= m < 3 ==> mods@[m] == module_descriptors()[m],
            unit_limits@.len() == k,
            forall|m: int|
                0 <= m < k ==> #[trigger] unit_limits@[m] == module_unit_limit(records@, module_descriptors()[m].key@),
        decreases 3 - k,
    {
        let u = match find_limit_record(records, mods[k].key) {
            Some((_, u)) => u,
            None => None,
        };
        unit_limits.push(u);
        k = k + 1;
    }
    UsageGroupDisplay { id, name, description, token_limit, unit_limits }
}

} // verus!
