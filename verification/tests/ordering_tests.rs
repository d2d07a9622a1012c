use counsel::admin::{operator_summary_of, recent_first_order, UserRow};
use counsel::api::{is_incident_log_name, missing_key_message, newest_first_order, unknown_provider_message};

fn row(name: &str, seen: Option<&str>, events: i64) -> UserRow {
    UserRow {
        user_id: name.to_string(),
        username: name.to_string(),
        created_at: "2026-01-01".to_string(),
        last_seen: seen.map(|s| s.to_string()),
        is_admin: false,
        is_operator: true,
        is_test_account: false,
        events_total: events,
        sessions_started: 1,
        sessions_completed: 0,
        last_step_reached: None,
        total_time_ms: 10,
        feedback_count: 0,
        last_browser: None,
        last_os: None,
        is_wechat: false,
    }
}

#[test]
fn incidents_ordered_newest_first_and_stable() {
    let stamps: Vec<String> = ["2026-01-02T00:00:00Z", "2026-01-03T00:00:00Z", "2026-01-02T00:00:00Z", "2025-12-30T00:00:00Z"]
        .iter()
        .map(|s| s.to_string())
        .collect();
    assert_eq!(newest_first_order(&stamps), vec![1, 0, 2, 3]);
    assert!(newest_first_order(&vec![]).is_empty());
}

#[test]
fn users_ordered_by_last_seen_unseen_last() {
    let seen = vec![None, Some("2026-01-01".to_string()), Some("2026-02-01".to_string()), None];
    assert_eq!(recent_first_order(&seen), vec![2, 1, 0, 3]);
}

#[test]
fn operator_summary_totals() {
    let sm = operator_summary_of(vec![row("michael", Some("2026-01-01"), 3), row("1136333527", Some("2026-02-01"), 4)]).unwrap();
    assert_eq!(sm.totals.accounts, 2);
    assert_eq!(sm.totals.events_total, 7);
    assert_eq!(sm.totals.sessions_started, 2);
    assert_eq!(sm.totals.total_time_ms, 20);
    assert_eq!(sm.totals.last_seen.as_deref(), Some("2026-02-01"));
    assert_eq!(sm.note, "Michael / 1136333527 单独统计，不计入运营用户数据");
    assert_eq!(sm.accounts.len(), 2);
    assert!(operator_summary_of(vec![row("a", None, i64::MAX), row("b", None, 1)]).is_none());
}

#[test]
fn provider_messages() {
    assert_eq!(missing_key_message("DEEPSEEK_API_KEY"), "DEEPSEEK_API_KEY not set in env and no key provided in request");
    assert_eq!(missing_key_message("KIMI_API_KEY"), "KIMI_API_KEY missing");
    assert_eq!(unknown_provider_message("foo"), "Unknown provider: foo");
}

#[test]
fn incident_log_names() {
    assert!(is_incident_log_name("2026-01-02.jsonl"));
    assert!(is_incident_log_name("2026-01-02.jsonl.2"));
    assert!(!is_incident_log_name("notes.txt"));
    assert!(!is_incident_log_name("a.jsonl"));
}
