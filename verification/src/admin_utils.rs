//! Helpers for the admin pages: redirect targets and flash messages.

use vstd::prelude::*;

use crate::text::{push_str, str_eq};

verus! {

/// The admin page to return to: one of the known module pages, otherwise
/// the dashboard.
pub open spec fn module_redirect(input: Option<&str>) -> Seq<char> {
    match input {
        Some(p) => if p@ == "/dashboard/modules/summarizer"@ {
            "/dashboard/modules/summarizer"@
        } else if p@ == "/dashboard/modules/translatedocx"@ {
            "/dashboard/modules/translatedocx"@
        } else if p@ == "/dashboard/modules/grader"@ {
            "/dashboard/modules/grader"@
        } else {
            "/dashboard"@
        },
        None => "/dashboard"@,
    }
}

/// Returns a sanitized redirect target for module admin pages to prevent arbitrary redirects.
pub fn sanitize_module_redirect(input: Option<&str>) -> (res: &'static str)
    ensures
        res@ == module_redirect(input),
{
    match input {
        Some(p) => {
            if str_eq(p, "/dashboard/modules/summarizer") {
                "/dashboard/modules/summarizer"
            } else if str_eq(p, "/dashboard/modules/translatedocx") {
                "/dashboard/modules/translatedocx"
            } else if str_eq(p, "/dashboard/modules/grader") {
                "/dashboard/modules/grader"
            } else {
                "/dashboard"
            }
        },
        None => "/dashboard",
    }
}

/// The message for an admin status code; empty for an unknown code.
pub open spec fn admin_status_text(status: Seq<char>) -> Seq<char> {
    if status == "created"@ {
        "已成功创建用户。"@
    } else if status == "password_updated"@ {
        "已更新密码。"@
    } else if status == "glossary_created"@ {
        "已新增术语。"@
    } else if status == "glossary_updated"@ {
        "已更新术语。"@
    } else if status == "glossary_deleted"@ {
        "已删除术语。"@
    } else if status == "topic_saved"@ {
        "已保存主题。"@
    } else if status == "topic_deleted"@ {
        "已删除主题。"@
    } else if status == "journal_saved"@ {
        "已保存期刊参考。"@
    } else if status == "journal_deleted"@ {
        "已删除期刊参考。"@
    } else if status == "summarizer_models_saved"@ {
        "已更新摘要模块模型。"@
    } else if status == "summarizer_prompts_saved"@ {
        "已更新摘要模块提示词。"@
    } else if status == "docx_models_saved"@ {
        "已更新 DOCX 模块模型。"@
    } else if status == "docx_prompts_saved"@ {
        "已更新 DOCX 模块提示词。"@
    } else if status == "grader_models_saved"@ {
        "已更新稿件评估模型。"@
    } else if status == "grader_prompts_saved"@ {
        "已更新稿件评估提示词。"@
    } else if status == "group_created"@ {
        "已创建额度组。"@
    } else if status == "group_saved"@ {
        "已更新额度组。"@
    } else if status == "group_assigned"@ {
        "已更新用户额度组。"@
    } else {
        Seq::<char>::empty()
    }
}

/// The message for an admin status code; empty for an unknown code.
pub fn admin_status_message(status: &str) -> (res: &'static str)
    ensures
        res@ == admin_status_text(status@),
{
    proof {
        reveal_strlit("");
    }
    if str_eq(status, "created") {
        "已成功创建用户。"
    } else if str_eq(status, "password_updated") {
        "已更新密码。"
    } else if str_eq(status, "glossary_created") {
        "已新增术语。"
    } else if str_eq(status, "glossary_updated") {
        "已更新术语。"
    } else if str_eq(status, "glossary_deleted") {
        "已删除术语。"
    } else if str_eq(status, "topic_saved") {
        "已保存主题。"
    } else if str_eq(status, "topic_deleted") {
        "已删除主题。"
    } else if str_eq(status, "journal_saved") {
        "已保存期刊参考。"
    } else if str_eq(status, "journal_deleted") {
        "已删除期刊参考。"
    } else if str_eq(status, "summarizer_models_saved") {
        "已更新摘要模块模型。"
    } else if str_eq(status, "summarizer_prompts_saved") {
        "已更新摘要模块提示词。"
    } else if str_eq(status, "docx_models_saved") {
        "已更新 DOCX 模块模型。"
    } else if str_eq(status, "docx_prompts_saved") {
        "已更新 DOCX 模块提示词。"
    } else if str_eq(status, "grader_models_saved") {
        "已更新稿件评估模型。"
    } else if str_eq(status, "grader_prompts_saved") {
        "已更新稿件评估提示词。"
    } else if str_eq(status, "group_created") {
        "已创建额度组。"
    } else if str_eq(status, "group_saved") {
        "已更新额度组。"
    } else if str_eq(status, "group_assigned") {
        "已更新用户额度组。"
    } else {
        ""
    }
}

/// The message for an admin error code; a generic message for an unknown code.
pub open spec fn admin_error_text(error: Seq<char>) -> Seq<char> {
    if error == "duplicate"@ {
        "用户名已存在。"@
    } else if error == "not_authorized"@ {
        "需要管理员权限。"@
    } else if error == "missing_username"@ {
        "请输入用户名。"@
    } else if error == "missing_password"@ {
        "请输入密码。"@
    } else if error == "password_missing"@ {
        "请输入新密码。"@
    } else if error == "user_missing"@ {
        "未找到该用户。"@
    } else if error == "hash_failed"@ {
        "处理密码时出错，请重试。"@
    } else if error == "glossary_missing_fields"@ {
        "请填写英文和中文术语。"@
    } else if error == "glossary_duplicate"@ {
        "已存在相同英文术语。"@
    } else if error == "glossary_not_found"@ {
        "未找到对应术语。"@
    } else if error == "topic_missing_name"@ {
        "请填写主题名称。"@
    } else if error == "topic_not_found"@ {
        "未找到对应主题。"@
    } else if error == "journal_missing_name"@ {
        "请填写期刊名称。"@
    } else if error == "journal_invalid_low"@ {
        "请输入有效的低区间数值。"@
    } else if error == "journal_invalid_score"@ {
        "主题分值必须是 0-2 的整数。"@
    } else if error == "journal_not_found"@ {
        "未找到对应期刊参考。"@
    } else if error == "summarizer_invalid_models"@ {
        "请提供摘要模块所需的全部模型字段。"@
    } else if error == "summarizer_invalid_prompts"@ {
        "请填写摘要模块的所有提示文案。"@
    } else if error == "docx_invalid_models"@ {
        "请提供 DOCX 模块的模型配置。"@
    } else if error == "docx_invalid_prompts"@ {
        "请填写 DOCX 模块的提示文案。"@
    } else if error == "grader_invalid_models"@ {
        "请提供稿件评估模块的模型配置。"@
    } else if error == "grader_invalid_prompts"@ {
        "请填写稿件评估模块的提示文案。"@
    } else if error == "group_missing"@ {
        "请选择有效的额度组。"@
    } else if error == "group_invalid"@ {
        "额度组标识无效。"@
    } else if error == "group_invalid_limit"@ {
        "额度上限需为非负整数。"@
    } else if error == "group_duplicate"@ {
        "已存在同名额度组。"@
    } else if error == "group_name_missing"@ {
        "请输入额度组名称。"@
    } else {
        "发生未知错误，请查看日志。"@
    }
}

/// The message for an admin error code; a generic message for an unknown code.
pub fn admin_error_message(error: &str) -> (res: &'static str)
    ensures
        res@ == admin_error_text(error@),
{
    if str_eq(error, "duplicate") {
        "用户名已存在。"
    } else if str_eq(error, "not_authorized") {
        "需要管理员权限。"
    } else if str_eq(error, "missing_username") {
        "请输入用户名。"
    } else if str_eq(error, "missing_password") {
        "请输入密码。"
    } else if str_eq(error, "password_missing") {
        "请输入新密码。"
    } else if str_eq(error, "user_missing") {
        "未找到该用户。"
    } else if str_eq(error, "hash_failed") {
        "处理密码时出错，请重试。"
    } else if str_eq(error, "glossary_missing_fields") {
        "请填写英文和中文术语。"
    } else if str_eq(error, "glossary_duplicate") {
        "已存在相同英文术语。"
    } else if str_eq(error, "glossary_not_found") {
        "未找到对应术语。"
    } else if str_eq(error, "topic_missing_name") {
        "请填写主题名称。"
    } else if str_eq(error, "topic_not_found") {
        "未找到对应主题。"
    } else if str_eq(error, "journal_missing_name") {
        "请填写期刊名称。"
    } else if str_eq(error, "journal_invalid_low") {
        "请输入有效的低区间数值。"
    } else if str_eq(error, "journal_invalid_score") {
        "主题分值必须是 0-2 的整数。"
    } else if str_eq(error, "journal_not_found") {
        "未找到对应期刊参考。"
    } else if str_eq(error, "summarizer_invalid_models") {
        "请提供摘要模块所需的全部模型字段。"
    } else if str_eq(error, "summarizer_invalid_prompts") {
        "请填写摘要模块的所有提示文案。"
    } else if str_eq(error, "docx_invalid_models") {
        "请提供 DOCX 模块的模型配置。"
    } else if str_eq(error, "docx_invalid_prompts") {
        "请填写 DOCX 模块的提示文案。"
    } else if str_eq(error, "grader_invalid_models") {
        "请提供稿件评估模块的模型配置。"
    } else if str_eq(error, "grader_invalid_prompts") {
        "请填写稿件评估模块的提示文案。"
    } else if str_eq(error, "group_missing") {
        "请选择有效的额度组。"
    } else if str_eq(error, "group_invalid") {
        "额度组标识无效。"
    } else if str_eq(error, "group_invalid_limit") {
        "额度上限需为非负整数。"
    } else if str_eq(error, "group_duplicate") {
        "已存在同名额度组。"
    } else if str_eq(error, "group_name_missing") {
        "请输入额度组名称。"
    } else {
        "发生未知错误，请查看日志。"
    }
}

/// The flash box for the admin dashboard: a success box for a known status
/// code, otherwise an error box for any error code, otherwise nothing.
pub open spec fn admin_flash(status: Option<&str>, error: Option<&str>) -> Seq<char> {
    if status is Some && admin_status_text(status->0@).len() > 0 {
        "<div class=\"flash success\">"@ + admin_status_text(status->0@) + "</div>"@
    } else if error is Some {
        "<div class=\"flash error\">"@ + admin_error_text(error->0@) + "</div>"@
    } else {
        Seq::empty()
    }
}

/// Compose a flash message HTML snippet for known admin status or error codes.
pub fn compose_flash_message(status: Option<&str>, error: Option<&str>) -> (res: String)
    ensures
        res@ == admin_flash(status, error),
{
    if let Some(status) = status {
        let message = admin_status_message(status);
        if !message.is_empty() {
            let mut out = String::new();
            push_str(&mut out, "<div class=\"flash success\">");
            push_str(&mut out, message);
            push_str(&mut out, "</div>");
            assert(out@ =~= admin_flash(Some(status), error));
            return out;
        }
    }
    if let Some(error) = error {
        let message = admin_error_message(error);
        let mut out = String::new();
        push_str(&mut out, "<div class=\"flash error\">");
        push_str(&mut out, message);
        push_str(&mut out, "</div>");
        assert(out@ =~= "<div class=\"flash error\">"@ + admin_error_text(error@) + "</div>"@);
        return out;
    }
    String::new()
}

} // verus!
