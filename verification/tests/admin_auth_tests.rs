use counsel::admin::{
    admin_usernames_from, is_operator_username, is_test_username, make_user_row, median_duration,
    operator_totals, operator_username_predicate, real_user_id_predicate, real_username_predicate,
    test_username_predicate, UserActivity,
};
use counsel::auth::{bearer_token, check_new_password, hash_password, validate_body, verify_password, AuthBody, ChangePasswordBody};

#[test]
fn account_classes() {
    assert!(is_operator_username("  Michael "));
    assert!(is_operator_username("1136333527"));
    assert!(!is_operator_username("michaelx"));
    assert!(is_test_username("E2E-run-7"));
    assert!(is_test_username("smoke_test_1"));
    assert!(!is_test_username("regular"));
}

#[test]
fn sql_predicates() {
    assert_eq!(operator_username_predicate("u.username"), "LOWER(u.username) IN ('michael', '1136333527')");
    assert!(test_username_predicate("x").starts_with("(LOWER(x) GLOB 'e2e-*' OR LOWER(x) GLOB 'step3smoke*'"));
    assert!(real_username_predicate("username").starts_with("NOT (LOWER(username) IN"));
    assert!(real_user_id_predicate("e.user_id").starts_with("e.user_id NOT IN (SELECT id FROM users WHERE (LOWER(username)"));
}

#[test]
fn admin_lists_merge() {
    assert_eq!(admin_usernames_from(" Alice, ,BOB ", "bob,carol"), vec!["alice", "bob", "carol"]);
    assert!(admin_usernames_from("", "").is_empty());
}

#[test]
fn user_rows_and_totals() {
    let act = |seen: Option<&str>, ev: i64| UserActivity {
        last_seen: seen.map(|s| s.to_string()),
        events_total: ev,
        sessions_started: 1,
        sessions_completed: 0,
        last_step_reached: Some(3),
        total_time_ms: 100,
        feedback_count: 2,
        last_browser: None,
        last_os: None,
        wechat_flag: Some(1),
    };
    let admins = vec!["alice".to_string()];
    let a = make_user_row("1".into(), "Alice".into(), "t".into(), act(Some("2026-01-02"), 5), &admins);
    let b = make_user_row("2".into(), "e2e-x".into(), "t".into(), act(Some("2026-03-01"), 7), &admins);
    assert!(a.is_admin && !a.is_test_account && a.is_wechat);
    assert!(b.is_test_account && !b.is_admin);
    let totals = operator_totals(&vec![a, b]);
    assert_eq!(totals.accounts, 2);
    assert_eq!(totals.events_total, 12);
    assert_eq!(totals.feedback_count, 4);
    assert_eq!(totals.last_seen.as_deref(), Some("2026-03-01"));
    assert_eq!(median_duration(&[1, 5, 9, 20]), Some(9));
    assert_eq!(median_duration(&[]), None);
}

#[test]
fn credential_rules() {
    let body = |u: &str, p: &str| AuthBody { username: u.into(), password: p.into() };
    assert_eq!(validate_body(&body("ab", "secret1")), Err("用户名长度 3-128"));
    assert_eq!(validate_body(&body("a b c", "secret1")), Err("用户名只能是字母、数字、下划线、短横线、点、@、+"));
    assert_eq!(validate_body(&body(" me@x.io ", "12345")), Err("密码长度 6-128"));
    assert_eq!(validate_body(&body("me@x.io", "123456")), Ok(()));
    let ch = |o: &str, n: &str| ChangePasswordBody { old_password: o.into(), new_password: n.into() };
    assert_eq!(check_new_password(&ch("abcdef", "abc")), Some("新密码长度必须在 6-128 之间"));
    assert_eq!(check_new_password(&ch("abcdef", "abcdef")), Some("新密码不能和旧密码相同"));
    assert_eq!(check_new_password(&ch("abcdef", "ghijkl")), None);
}

#[test]
fn bearer_tokens() {
    assert_eq!(bearer_token(Some("Bearer  abc ")).as_deref(), Some("abc"));
    assert_eq!(bearer_token(Some("Bearer   ")), None);
    assert_eq!(bearer_token(Some("Basic abc")), None);
    assert_eq!(bearer_token(None), None);
}

// A password verifies against its own hash and not against another.
#[test]
fn password_hash_roundtrip() {
    let h = hash_password("correct horse").ok().unwrap();
    assert!(verify_password("correct horse", &h));
    assert!(!verify_password("wrong horse", &h));
    assert!(!verify_password("correct horse", "not-a-hash"));
}

// A stored hash is the 60-character `2b` string made at cost 12.
#[test]
fn password_hash_is_made_at_cost_twelve() {
    let h = hash_password("correct horse").ok().unwrap();
    assert_eq!(h.len(), 60);
    assert!(h.starts_with("$2b$12$"));
}
