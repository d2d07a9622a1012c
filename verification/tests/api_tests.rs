use counsel::api::{
    coalesce_key, debate_indices, debate_plan, dev_mirror_enabled, extract_json_object,
    format_prior_qa, incident_kind_for, incident_needed, match_category, persona_visual_defaults,
    provider_for, refine_response, step_timeout, step_timeout_message, suggestion_from,
    user_file_target, IncidentRecord, ListFilters, MirrorTarget, PriorQA, ProviderKind,
    RefineFields, incident_matches, lookback_days, log_session_key_ok, refine_request_error,
};
use counsel::counsel::strip_think_tags;

#[test]
fn matches_exact_category() {
    assert_eq!(match_category("创业/产品决策").as_deref(), Some("创业/产品决策"));
}

#[test]
fn strips_quotes_and_period() {
    assert_eq!(match_category("\"创业/产品决策\"。").as_deref(), Some("创业/产品决策"));
}

#[test]
fn keyword_fallback() {
    assert_eq!(match_category("孩子教育").as_deref(), Some("关系/婚恋/家庭"));
}

#[test]
fn returns_none_when_no_match() {
    assert!(match_category("xyz random text").is_none());
}

#[test]
fn listed_category_wins_over_keywords() {
    assert_eq!(match_category("`其他`").as_deref(), Some("其他"));
    assert_eq!(match_category("健康问题").as_deref(), Some("健康/身体/疾病"));
}

// Parse a refinement reply as the server does: strip reasoning, cut out the
// JSON object, read its fields, decide.
fn parse_refine(raw: &str) -> (String, Option<String>, Option<String>) {
    let cleaned = strip_think_tags(raw);
    let parsed = extract_json_object(&cleaned).and_then(|body| {
        let v: serde_json::Value = serde_json::from_str(&body).ok()?;
        let obj = v.as_object()?;
        let text = |k: &str| obj.get(k).and_then(|x| x.as_str()).map(|s| s.to_string());
        Some(RefineFields { action: text("action").unwrap_or_default(), question: text("question"), reason: text("reason") })
    });
    let r = refine_response(&cleaned, &parsed);
    (r.action, r.question, r.reason)
}

#[test]
fn parses_skip_json() {
    let r = parse_refine(r#"{"action":"skip","reason":"前面已问过资源清单"}"#);
    assert_eq!(r.0, "skip");
    assert_eq!(r.2.as_deref(), Some("前面已问过资源清单"));
}

#[test]
fn parses_ask_json() {
    let r = parse_refine(r#"{"action":"ask","question":"你的撤回窗口有多宽？"}"#);
    assert_eq!(r.0, "ask");
    assert_eq!(r.1.as_deref(), Some("你的撤回窗口有多宽？"));
}

#[test]
fn refine_parses_fenced_json() {
    let r = parse_refine("```json\n{\"action\":\"skip\",\"reason\":\"重复\"}\n```");
    assert_eq!(r.0, "skip");
}

#[test]
fn fallback_to_ask_on_garbage() {
    let r = parse_refine("this is not json, but here is a question?");
    assert_eq!(r.0, "ask");
    assert!(r.1.unwrap().contains("question"));
}

#[test]
fn skip_with_empty_reason_gets_default() {
    let r = parse_refine(r#"{"action":"skip","reason":""}"#);
    assert_eq!(r.0, "skip");
    assert!(r.2.unwrap().contains("重复"));
}

#[test]
fn uppercase_action_is_accepted() {
    let r = parse_refine(r#"{"action":"SKIP","reason":" dup "}"#);
    assert_eq!(r.0, "skip");
    assert_eq!(r.2.as_deref(), Some("dup"));
}

#[test]
fn blank_output_gets_notice() {
    let r = parse_refine("   ");
    assert_eq!(r.0, "ask");
    assert_eq!(r.1.as_deref(), Some("（无法解析模型输出，跳过）"));
}

#[test]
fn json_object_extraction() {
    assert_eq!(extract_json_object("  {\"a\":1}  ").as_deref(), Some("{\"a\":1}"));
    assert_eq!(extract_json_object("sure: {\"a\":1} done").as_deref(), Some("{\"a\":1}"));
    assert_eq!(extract_json_object("```\n{\"b\":2}\n```").as_deref(), Some("{\"b\":2}"));
    assert_eq!(extract_json_object("} nothing {").as_deref(), None);
    assert_eq!(extract_json_object("no braces").as_deref(), None);
}

fn avail() -> Vec<(String, String, String)> {
    vec![
        ("mao-zedong".into(), "毛泽东".into(), "Revolutionary".into()),
        ("paul-graham".into(), "Paul Graham".into(), "YC Founder".into()),
        ("steve-jobs".into(), "Steve Jobs".into(), "Apple".into()),
    ]
}

fn parse_suggestion(raw: &str) -> Option<(Vec<String>, String)> {
    let cleaned = strip_think_tags(raw);
    let body = extract_json_object(&cleaned)?;
    let v: serde_json::Value = serde_json::from_str(&body).ok()?;
    let slugs: Vec<String> = v.get("recommended_slugs")
        .and_then(|x| x.as_array())
        .map(|a| a.iter().filter_map(|s| s.as_str().map(|s| s.to_string())).collect())
        .unwrap_or_default();
    let reasoning = v.get("reasoning").and_then(|x| x.as_str()).unwrap_or("").to_string();
    suggestion_from(&slugs, &reasoning, &avail()).map(|s| (s.recommended, s.reasoning))
}

#[test]
fn parses_bare_json() {
    let out = parse_suggestion(r#"{"recommended_slugs": ["mao-zedong", "paul-graham"], "reasoning": "yes"}"#).unwrap();
    assert_eq!(out.0, vec!["mao-zedong", "paul-graham"]);
    assert_eq!(out.1, "yes");
}

#[test]
fn sessions_parses_fenced_json() {
    let out = parse_suggestion("```json\n{\"recommended_slugs\": [\"steve-jobs\"], \"reasoning\": \"rt\"}\n```").unwrap();
    assert_eq!(out.0, vec!["steve-jobs"]);
}

#[test]
fn drops_unknown_slugs() {
    let out = parse_suggestion(r#"{"recommended_slugs": ["mao-zedong", "bogus-slug"], "reasoning": "x"}"#).unwrap();
    assert_eq!(out.0, vec!["mao-zedong"]);
}

#[test]
fn returns_none_when_no_valid_slugs() {
    assert!(parse_suggestion(r#"{"recommended_slugs": ["bogus"], "reasoning": "x"}"#).is_none());
}

#[test]
fn caps_at_six() {
    let raw = r#"{"recommended_slugs": ["mao-zedong", "paul-graham", "steve-jobs", "mao-zedong", "paul-graham", "steve-jobs", "mao-zedong"], "reasoning": "x"}"#;
    let out = parse_suggestion(raw).unwrap();
    assert_eq!(out.0.len(), 6);
}

#[test]
fn prior_qa_is_numbered_and_trimmed() {
    let items = vec![
        PriorQA { persona: "PG".into(), question: " Q1? ".into(), answer: " A1 ".into() },
        PriorQA { persona: "毛".into(), question: "Q2".into(), answer: "   ".into() },
    ];
    assert_eq!(
        format_prior_qa(&items),
        "### 1. PG 问\nQ: Q1?\n案主答: A1\n\n### 2. 毛 问\nQ: Q2\n案主答: （跳过）\n\n"
    );
    assert_eq!(format_prior_qa(&[]), "");
}

#[test]
fn refine_request_checks() {
    assert_eq!(refine_request_error("  ", "long enough").as_deref(), Some("original_question is empty"));
    assert_eq!(refine_request_error("q", " abc ").as_deref(), Some("raw_input too short"));
    assert!(refine_request_error("q", "abcde").is_none());
}

#[test]
fn step_timeouts() {
    assert_eq!(step_timeout(2), 180);
    assert_eq!(step_timeout(6), 240);
    assert_eq!(step_timeout(8), 300);
    assert_eq!(step_timeout(1), 60);
    assert_eq!(step_timeout_message(4), "step 4 服务器侧超时（>240s 未完成）");
}

#[test]
fn incident_kinds() {
    assert_eq!(incident_kind_for("Agent error: Model returned empty response"), "empty_response");
    assert_eq!(incident_kind_for("facilitator returned 0 chars"), "empty_response");
    assert_eq!(incident_kind_for("Channel closed"), "stream_error");
    assert_eq!(incident_kind_for("bad stream"), "stream_error");
    assert_eq!(incident_kind_for("disk full"), "core_error");
    assert!(!incident_needed("core_error", "step 4 服务器侧超时（>240s 未完成）"));
    assert!(incident_needed("stream_error", "x"));
}

#[test]
fn debate_selection() {
    assert_eq!(debate_indices(&None), vec![0, 1]);
    assert_eq!(debate_indices(&Some(vec![])), vec![0, 1]);
    assert_eq!(debate_indices(&Some(vec![4, 2, 0, 1])), vec![4, 2, 0]);
    assert_eq!(debate_plan(&vec![4, 2, 0], 3), vec![2, 0]);
}

#[test]
fn mirror_and_keys() {
    assert!(!dev_mirror_enabled(None));
    assert!(!dev_mirror_enabled(Some("")));
    assert!(!dev_mirror_enabled(Some("FALSE")));
    assert!(dev_mirror_enabled(Some("1")));
    assert!(matches!(user_file_target("user-wiki.md"), MirrorTarget::WorkingDir(_)));
    assert!(matches!(user_file_target("user-data/log/a.md"), MirrorTarget::UserData(ref r) if r == "log/a.md"));
    assert!(matches!(user_file_target("belief-system.md"), MirrorTarget::Project(_)));
    assert!(matches!(user_file_target("../etc"), MirrorTarget::Skip));
    assert!(matches!(user_file_target("a/b.md"), MirrorTarget::Skip));
    assert!(matches!(user_file_target("notes.md"), MirrorTarget::Root(_)));
    assert!(log_session_key_ok("abc-123"));
    assert!(!log_session_key_ok("a/b"));
    assert!(!log_session_key_ok(".."));
    assert!(!log_session_key_ok(""));
}

#[test]
fn api_key_fallback() {
    assert_eq!(coalesce_key(&Some("  k1 ".into()), Some("env".into())), "k1");
    assert_eq!(coalesce_key(&Some("   ".into()), Some("env".into())), "env");
    assert_eq!(coalesce_key(&None, Some("".into())), "");
    assert_eq!(coalesce_key(&None, None), "");
    assert!(matches!(provider_for("kimi"), Some((ProviderKind::Kimi, "KIMI_API_KEY"))));
    assert!(matches!(provider_for("ollama"), Some((ProviderKind::Ollama, ""))));
    assert!(provider_for("other").is_none());
}

#[test]
fn visual_defaults() {
    assert_eq!(persona_visual_defaults("pg", "Paul Graham"), (Some("#FF8C42"), Some("PG".to_string())));
    assert_eq!(persona_visual_defaults("zhuangzi", "庄子"), (Some("#D7B46A"), Some("庄".to_string())));
    assert_eq!(persona_visual_defaults("someone", "Zed"), (None, Some("Z".to_string())));
    assert_eq!(persona_visual_defaults("someone", ""), (None, None));
}

#[test]
fn record_kind_constants() {
    for k in ["empty_response", "stuck_timeout", "core_error", "stream_error"] {
        let r = IncidentRecord::new("p", "s", 2, k, "ok");
        assert_eq!(r.kind, k);
    }
}

#[test]
fn incident_builders_and_filters() {
    let mut sizes = std::collections::BTreeMap::new();
    sizes.insert("user_wiki".to_string(), 9001usize);
    let r = IncidentRecord::new("p1", "s1", 2, "empty_response", "facilitator 0 chars")
        .with_duration(1234)
        .with_model("deepseek:deepseek-v4-flash")
        .with_ctx_sizes(sizes);
    assert_eq!(r.duration_ms, 1234);
    assert_eq!(r.model, "deepseek:deepseek-v4-flash");
    assert_eq!(r.ctx_sizes.get("user_wiki"), Some(&9001));
    let only_step2 = ListFilters { days: Some(7), kind: None, step: Some(2) };
    assert!(incident_matches(&r, &only_step2));
    let only_timeout = ListFilters { days: Some(7), kind: Some("stuck_timeout".into()), step: None };
    assert!(!incident_matches(&r, &only_timeout));
    assert_eq!(lookback_days(&ListFilters { days: None, kind: None, step: None }), 7);
    assert_eq!(lookback_days(&ListFilters { days: Some(90), kind: None, step: None }), 30);
}
