use ai_toolkit::glossary::{glossary_write_outcome, GlossaryWrite};
use ai_toolkit::admin_forms::LoginForm;
use ai_toolkit::admin_shared::{
    journal_topic_scores, render_cell_or_dash, render_glossary_section, render_journal_rows, render_journal_section,
    render_topic_section, GlossaryTermRow, JournalRowView, JournalTopicRow, TopicScoreRow,
};
use ai_toolkit::auth::{
    admin_gate, check_login, hash_password, json_auth_error, login_decision, session_token, session_user,
    verify_password, AuthError, AuthUser, DbUserAuth, LoginFailure,
};
use ai_toolkit::config::{default_reviewer_models, default_reviewer_prompts};
use ai_toolkit::dashboard_page::{
    group_display, render_dashboard_page, user_usage, DashboardUser, ModuleUsage, UsageGroupDisplay, UserUsage,
};
use ai_toolkit::landing::{render_main_page_with_footer, LandingQuery};
use ai_toolkit::pages::{render_grader_page, render_referee_page, render_summarizer_page, render_translatedocx_page};
use ai_toolkit::responses::{json_error, require_path};
use ai_toolkit::settings_pages::render_referee_settings_page;
use ai_toolkit::translatedocx::download_name;
use ai_toolkit::users::{
    assign_group_location, assign_group_username, create_user_location, group_write_failure,
    password_reset_location, prepare_new_user, prepare_password_reset, AssignUserGroupForm, CreateUserForm,
    UpdatePasswordForm, WriteResult,
};

fn user(name: &str, is_admin: bool) -> AuthUser {
    AuthUser { id: "67e55044-10b1-426f-9247-bb680e5fe0c8".to_string(), username: name.to_string(), is_admin }
}

#[test]
fn sessions_and_admin_gate() {
    assert_eq!(session_token(None), Err(AuthError::MissingCookie));
    assert_eq!(session_token(Some("not-a-token")), Err(AuthError::InvalidToken));
    assert_eq!(
        session_token(Some("67e55044-10b1-426f-9247-bb680e5fe0c8")),
        Ok("67e55044-10b1-426f-9247-bb680e5fe0c8".to_string())
    );
    assert!(matches!(session_user(None), Err(AuthError::SessionExpired)));
    assert!(matches!(session_user(Some(user("amy", false))), Ok(u) if u.username == "amy"));
    let db = json_auth_error(AuthError::Database);
    assert_eq!((db.status, db.message), (500, "无法验证会话，请稍后再试。"));
    let missing = json_auth_error(AuthError::MissingCookie);
    assert_eq!((missing.status, missing.message), (401, "请先登录。"));
    assert_eq!(AuthError::SessionExpired.message(), "session expired");
    assert!(matches!(admin_gate(Err(AuthError::InvalidToken)), Err("/login")));
    assert!(matches!(admin_gate(Ok(user("amy", false))), Err("/?error=not_authorized")));
    assert!(matches!(admin_gate(Ok(user("root", true))), Ok(u) if u.username == "root"));
}

#[test]
fn malformed_stored_hashes_never_verify() {
    assert!(!verify_password("secret", "not-a-phc-string"));
    assert!(!verify_password("secret", "$argon2id$v=19$broken"));
    let hash = hash_password("secret").unwrap();
    assert!(hash.starts_with("$argon2"));
}

#[test]
fn login_verifies_the_stored_hash() {
    let hash = hash_password("secret").unwrap();
    assert!(verify_password("secret", &hash));
    assert!(!verify_password("wrong", &hash));
    assert!(!verify_password("secret", ""));
    let stored = DbUserAuth { id: "u1".to_string(), password_hash: hash };
    let form = LoginForm { username: "  alice ".to_string(), password: "secret".to_string() };
    assert_eq!(form.login_name(), "alice");
    assert_eq!(check_login(&form, Some(stored.clone())), Ok("u1".to_string()));
    let wrong = LoginForm { username: "alice".to_string(), password: "nope".to_string() };
    assert_eq!(check_login(&wrong, Some(stored.clone())), Err(LoginFailure::InvalidCredentials));
    assert_eq!(check_login(&form, None), Err(LoginFailure::InvalidCredentials));
    assert_eq!(login_decision(Some(stored), false), Err(LoginFailure::InvalidCredentials));
    assert_eq!(LoginFailure::InvalidCredentials.status_code(), 401);
    assert_eq!(LoginFailure::ServerError.status_code(), 500);
    assert_eq!(LoginFailure::InvalidCredentials.page_html(), "<h1>登录失败</h1><p>用户名或密码错误。</p>");
}

#[test]
fn new_users_are_checked_and_hashed() {
    let form = |name: &str, password: &str, group: Option<&str>| CreateUserForm {
        username: name.to_string(),
        password: password.to_string(),
        usage_group_id: group.map(str::to_string),
        is_admin: None,
    };
    assert_eq!(prepare_new_user(&form("  ", "pw", Some("g"))).unwrap_err(), "/dashboard?error=missing_username");
    assert_eq!(prepare_new_user(&form("bob", " ", Some("g"))).unwrap_err(), "/dashboard?error=missing_password");
    assert_eq!(prepare_new_user(&form("bob", "pw", None)).unwrap_err(), "/dashboard?error=group_missing");
    let mut admin_form = form(" bob ", " pw ", Some("g1"));
    admin_form.is_admin = Some("on".to_string());
    let created = prepare_new_user(&admin_form).unwrap();
    assert_eq!(created.username, "bob");
    assert_eq!(created.usage_group_id, "g1");
    assert!(created.is_admin);
    assert!(verify_password("pw", &created.password_hash));
    assert_eq!(create_user_location(&WriteResult::Done(1)), "/dashboard?status=created");
    assert_eq!(create_user_location(&WriteResult::Failed(Some("23505".to_string()))), "/dashboard?error=duplicate");
    assert_eq!(create_user_location(&WriteResult::Failed(None)), "/dashboard?error=unknown");
}

#[test]
fn password_resets_and_group_moves_land_where_expected() {
    let reset = |name: &str, password: &str| UpdatePasswordForm { username: name.to_string(), password: password.to_string() };
    assert_eq!(prepare_password_reset(&reset("", "x")).unwrap_err(), "/dashboard?error=user_missing");
    assert_eq!(prepare_password_reset(&reset("bob", "")).unwrap_err(), "/dashboard?error=missing_password");
    let (name, hash) = prepare_password_reset(&reset(" bob ", "new-pass")).unwrap();
    assert_eq!(name, "bob");
    assert!(verify_password("new-pass", &hash));
    assert_eq!(password_reset_location(&WriteResult::Done(1)), "/dashboard?status=password_updated");
    assert_eq!(password_reset_location(&WriteResult::Done(0)), "/dashboard?error=user_missing");
    assert_eq!(password_reset_location(&WriteResult::Failed(None)), "/dashboard?error=unknown");
    let assign = AssignUserGroupForm { username: " bob ".to_string(), usage_group_id: "g".to_string() };
    assert_eq!(assign_group_username(&assign), Ok("bob".to_string()));
    assert_eq!(assign_group_location(&WriteResult::Done(1)), "/dashboard?status=group_assigned");
    assert_eq!(assign_group_location(&WriteResult::Done(0)), "/dashboard?error=user_missing");
    assert_eq!(assign_group_location(&WriteResult::Failed(Some("23503".to_string()))), "/dashboard?error=group_missing");
    assert_eq!(assign_group_location(&WriteResult::Failed(Some("42P01".to_string()))), "/dashboard?error=unknown");
}

#[test]
fn usage_group_writes_report_failures() {
    assert_eq!(group_write_failure(true, &WriteResult::Done(0)), Some("/dashboard?error=group_missing".to_string()));
    assert_eq!(group_write_failure(false, &WriteResult::Done(0)), None);
    assert_eq!(group_write_failure(true, &WriteResult::Done(1)), None);
    assert_eq!(
        group_write_failure(false, &WriteResult::Failed(Some("23505".to_string()))),
        Some("/dashboard?error=group_duplicate".to_string())
    );
    assert_eq!(group_write_failure(true, &WriteResult::Failed(None)), Some("/dashboard?error=unknown".to_string()));
}

#[test]
fn error_payloads() {
    let (status, payload) = json_error(403, "无权访问。".to_string());
    assert_eq!((status, payload.message.as_str()), (403, "无权访问。"));
    assert_eq!(require_path(Some("a/b.txt".to_string()), "none".to_string()).unwrap(), "a/b.txt");
    let (status, payload) = require_path(None, "文件不存在".to_string()).unwrap_err();
    assert_eq!((status, payload.message.as_str()), (404, "文件不存在"));
}

#[test]
fn translated_download_names() {
    assert_eq!(download_name("report.docx"), "report_translated.docx");
    assert_eq!(download_name("论文 草稿.docx"), "论文 草稿_translated.docx");
}

#[test]
fn admin_sections_render_rows_and_forms() {
    assert_eq!(render_cell_or_dash(&None), "—");
    assert_eq!(render_cell_or_dash(&Some(String::new())), "—");
    assert_eq!(render_cell_or_dash(&Some("<b>".to_string())), "&lt;b&gt;");
    let term = GlossaryTermRow {
        id: "t1".to_string(),
        source_term: "Noise & Vibration".to_string(),
        target_term: "噪声与振动".to_string(),
        notes: None,
    };
    let glossary = render_glossary_section(&[term], "/dashboard/modules/summarizer");
    assert!(glossary.contains("Noise &amp; Vibration"));
    assert!(glossary.contains("噪声与振动"));
    assert!(glossary.contains("/dashboard/modules/summarizer"));
    let topic = JournalTopicRow {
        id: "k1".to_string(),
        name: "Acoustics".to_string(),
        description: None,
        created_on: "2024-01-02".to_string(),
    };
    let topics = render_topic_section(&[topic.clone()], "/dashboard/modules/grader");
    assert!(topics.contains("<tr><td>Acoustics</td><td>—</td><td>2024-01-02</td>"));
    assert!(render_topic_section(&[], "/x").contains("尚未添加主题。"));
    let journal = render_journal_section("<tr><td>J</td></tr>", "/dashboard/modules/grader", &[topic]);
    assert!(journal.contains("<tr><td>J</td></tr>"));
    assert!(journal.contains(
        "<div class=\"topic-grid\"><div class=\"topic-picker\" data-topic=\"k1\"><label for=\"score-k1\">Acoustics</label>"
    ));
    assert!(journal.contains("<option value=\"0\" selected>0</option><option value=\"1\">1</option><option value=\"2\">2</option>"));
    assert!(journal.ends_with("</script>\n"));
    let empty = render_journal_section("", "/r", &[]);
    assert!(empty.contains("<p class=\"section-note\">暂无主题，请先添加主题后再录入分值。</p>"));
}

#[test]
fn tool_pages_show_the_user_and_admin_links() {
    let admin = user("<root>", true);
    let member = user("amy", false);
    let page = render_summarizer_page(&admin, "<footer>f</footer>".to_string(), "/*css*/", "/*js*/");
    assert!(page.contains("当前登录：<strong>&lt;root&gt;</strong>"));
    assert!(page.contains("<a class=\"admin-link\" href=\"/dashboard/modules/summarizer\">模块管理</a>"));
    assert!(page.contains("<footer>f</footer>"));
    let grader = render_grader_page(&member, String::new(), "", "");
    assert!(!grader.contains("/dashboard/modules/grader"));
    assert!(grader.contains("当前登录：<strong>amy</strong>"));
    let referee = render_referee_page(&admin, String::new(), "", "");
    assert!(referee.contains("/dashboard/modules/referee"));
    let docx = render_translatedocx_page(&member, "");
    assert!(!docx.contains("/dashboard/modules/translatedocx"));
}

#[test]
fn landing_page_lists_the_modules() {
    let params = LandingQuery { status: None, error: None };
    let admin_page = render_main_page_with_footer(&user("root", true), &params, "<footer>x</footer>");
    for path in ["/tools/summarizer", "/tools/translatedocx", "/tools/infoextract", "/tools/grader", "/tools/referee"] {
        assert!(admin_page.contains(path), "missing {path}");
    }
    assert!(admin_page.contains("<a class=\"admin-link\" href=\"/dashboard\">管理后台</a>"));
    assert!(admin_page.contains("<footer>x</footer>"));
    let member_page = render_main_page_with_footer(&user("amy", false), &params, "");
    assert!(!member_page.contains("href=\"/dashboard\""));
}

#[test]
fn referee_settings_page_shows_models() {
    let models = default_reviewer_models();
    let page = render_referee_settings_page("root", None, None, &models, &default_reviewer_prompts(), "<footer></footer>");
    assert!(page.contains(&models.round1_model_1));
    assert!(page.contains(&models.round3_model));
    assert!(page.contains("<footer></footer>"));
}

#[test]
fn dashboard_needs_a_usage_group() {
    let admin = user("root", true);
    assert_eq!(render_dashboard_page(&admin, None, None, &[], &[], ""), Err("/login"));
    let group = UsageGroupDisplay {
        id: "g1".to_string(),
        name: "Default".to_string(),
        description: None,
        token_limit: Some(1000),
        unit_limits: vec![Some(5), None, None],
    };
    let member = DashboardUser {
        id: "u1".to_string(),
        username: "amy".to_string(),
        usage_group_id: "g1".to_string(),
        is_admin: false,
        usage: Some(UserUsage {
            global_tokens: 42,
            modules: vec![Some(ModuleUsage { units: 2, tokens: 40 }), None, Some(ModuleUsage { units: 1, tokens: 2 })],
        }),
    };
    let page = render_dashboard_page(&admin, Some("created"), None, &[member], &[group], "").unwrap();
    assert!(page.contains("amy"));
    assert!(page.contains("Default"));
}

#[test]
fn journal_rows_list_scores_and_payloads() {
    assert_eq!(render_journal_rows(&[], "/r"), "<tr><td colspan=\"6\">尚未添加期刊参考。</td></tr>");
    let row = JournalRowView {
        id: "j1".to_string(),
        journal_name: "Applied Acoustics".to_string(),
        reference_mark: Some("Q1".to_string()),
        low_bound_text: "37.50".to_string(),
        notes: None,
        topic_scores: vec![("Noise".to_string(), 2), ("Vibration".to_string(), -1)],
        payload_json: "{\"a\":1}".to_string(),
    };
    let html = render_journal_rows(&[row.clone()], "/dashboard/modules/grader");
    assert!(html.starts_with(
        "<tr><td>Applied Acoustics</td><td>Q1</td><td>37.50</td><td>—</td><td>Noise：2<br>Vibration：-1</td><td>"
    ));
    assert!(html.contains("data-load-journal=\"{&quot;a&quot;:1}\">载入表单</button>"));
    assert!(html.contains("<input type=\"hidden\" name=\"id\" value=\"j1\">"));
    assert!(html.ends_with("</form>\n    </div>\n</td></tr>"));
    let mut bare = row;
    bare.topic_scores.clear();
    assert!(render_journal_rows(&[bare], "/r").contains("<td>—</td><td>\n    <div class=\"action-stack\">"));
}

#[test]
fn journal_scores_are_joined_and_sorted_by_topic_name() {
    let topic = |id: &str, name: &str| JournalTopicRow {
        id: id.to_string(),
        name: name.to_string(),
        description: None,
        created_on: "2024-01-01".to_string(),
    };
    let topics = vec![topic("t1", "Noise"), topic("t2", "Acoustics"), topic("t3", "Health")];
    let score = |j: &str, t: &str, s: i16| TopicScoreRow { journal_id: j.to_string(), topic_id: t.to_string(), score: s };
    let scores = vec![score("j1", "t1", 2), score("j2", "t2", 1), score("j1", "t9", 2), score("j1", "t2", 1), score("j1", "t3", 0)];
    assert_eq!(
        journal_topic_scores(&topics, &scores, "j1"),
        vec![
            ("t2".to_string(), "Acoustics".to_string(), 1),
            ("t3".to_string(), "Health".to_string(), 0),
            ("t1".to_string(), "Noise".to_string(), 2),
        ]
    );
    assert!(journal_topic_scores(&topics, &scores, "j3").is_empty());
}

#[test]
fn usage_and_limits_are_read_per_module() {
    let usage = user_usage(&vec![("grader".to_string(), 40, 2), ("summarizer".to_string(), i64::MAX, 1)]);
    assert_eq!(usage.global_tokens, i64::MAX);
    assert!(usage.modules[0].is_some_and(|m| m.units == 1 && m.tokens == i64::MAX));
    assert!(usage.modules[1].is_none());
    assert!(usage.modules[2].is_some_and(|m| m.units == 2 && m.tokens == 40));
    let group = group_display(
        "g".to_string(),
        "Lab".to_string(),
        None,
        &vec![("grader".to_string(), Some(500), Some(3)), ("translatedocx".to_string(), None, Some(9))],
    );
    assert_eq!(group.token_limit, Some(500));
    assert_eq!(group.unit_limits, vec![None, Some(9), Some(3)]);
}

#[test]
fn glossary_writes_are_answered_by_outcome() {
    assert_eq!(glossary_write_outcome(GlossaryWrite::Rows(1), "glossary_created"), ("status", "glossary_created"));
    assert_eq!(glossary_write_outcome(GlossaryWrite::Rows(0), "glossary_updated"), ("error", "glossary_not_found"));
    assert_eq!(glossary_write_outcome(GlossaryWrite::Duplicate, "glossary_created"), ("error", "glossary_duplicate"));
    assert_eq!(glossary_write_outcome(GlossaryWrite::Failed, "glossary_deleted"), ("error", "unknown"));
}
