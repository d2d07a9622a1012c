use counsel::admin::{device_buckets, incident_summary, persona_usage, tally};
use counsel::api::{
    incident_matches, ListFilters,
    batch_verdict, client_ip, event_accepted, feedback_body, feedback_context_kept, user_agent,
    wish_name, BatchVerdict, FeedbackRejection, IncidentRecord, WishRejection,
};
use counsel::chat::EventPayload;
use counsel::flow::{
    answers_look_like_json, compress_prompt, debate_is_skipped, debate_needs_compression,
    facts_answers_md, opinion_failure_note, split_plain_answers, summary_debate_source,
};
use counsel::sse::sse_data_payload;
use counsel::wisdom::{active_personas, PersonaRegistry, PressureFingerprint};

fn count_of(t: &[(String, u64)], k: &str) -> Option<u64> {
    t.iter().find(|(l, _)| l == k).map(|(_, c)| *c)
}

#[test]
fn client_ip_prefers_first_forwarded_entry() {
    assert_eq!(client_ip(Some(" 1.2.3.4 , 10.0.0.1"), Some("9.9.9.9")).as_deref(), Some("1.2.3.4"));
    assert_eq!(client_ip(Some("  ,10.0.0.1"), Some("9.9.9.9")).as_deref(), Some("9.9.9.9"));
    assert_eq!(client_ip(None, Some("9.9.9.9")).as_deref(), Some("9.9.9.9"));
    assert_eq!(client_ip(None, None), None);
}

#[test]
fn user_agent_is_capped_at_512_chars() {
    let long: String = "界".repeat(600);
    assert_eq!(user_agent(&long).chars().count(), 512);
    assert_eq!(user_agent("curl/8"), "curl/8");
}

#[test]
fn sse_payload_skips_done_and_other_lines() {
    assert_eq!(sse_data_payload("data: {\"a\":1}").as_deref(), Some("{\"a\":1}"));
    assert_eq!(sse_data_payload("data: [DONE]"), None);
    assert_eq!(sse_data_payload("event: ping"), None);
}

#[test]
fn plain_answers_split_or_repeat() {
    assert!(answers_look_like_json("  [\"a\"]"));
    assert!(!answers_look_like_json("a"));
    assert_eq!(split_plain_answers("one\n\n two \n\n\n\nthree", 3), vec!["one", "two", "three"]);
    assert_eq!(split_plain_answers("only one", 2), vec!["only one", "only one"]);
}

#[test]
fn answers_file_marks_missing_answers() {
    let qs = vec![("A".to_string(), "q1".to_string()), ("B".to_string(), "q2".to_string())];
    let md = facts_answers_md(&qs, &vec!["yes".to_string()]);
    assert_eq!(
        md,
        "\n\n## A Questions\nq1\n\n## Client's Answer\nyes\n\n\n## B Questions\nq2\n\n## Client's Answer\n（未回答）\n"
    );
}

#[test]
fn opinion_failure_placeholder() {
    assert_eq!(
        opinion_failure_note("孙子", "timeout"),
        "_（孙子 此次未能返回意见——LLM 调用失败：timeout。可在 Settings 切换模型或重试。）_"
    );
}

#[test]
fn summary_falls_back_to_opinions() {
    let ops = vec![("A".to_string(), "x".to_string())];
    assert!(debate_is_skipped("  \n"));
    assert!(debate_is_skipped("# 辩论已跳过\n"));
    assert_eq!(
        summary_debate_source("# 辩论已跳过\n", &ops),
        "# 单一视角 / 意见一致场景 — 直接采用 Step 4 的 opinion\n\n## A\nx"
    );
    assert_eq!(summary_debate_source("", &vec![]), "");
    assert_eq!(summary_debate_source("real debate", &ops), "real debate");
}

#[test]
fn long_debates_are_compressed() {
    assert!(!debate_needs_compression(&"字".repeat(8000)));
    assert!(debate_needs_compression(&"字".repeat(8001)));
    let p = compress_prompt("DEBATE");
    assert!(p.starts_with("以下是一次多维度辩论的完整记录。"));
    assert!(p.ends_with("---\n\nDEBATE"));
}

#[test]
fn active_personas_follow_pick_file() {
    let reg = PersonaRegistry::test_registry(3);
    assert_eq!(active_personas(&reg, &[]).len(), 3);
    let slugs = vec![reg.all()[2].slug.clone(), "nobody".to_string(), reg.all()[0].slug.clone()];
    let picked = active_personas(&reg, &slugs);
    assert_eq!(picked.len(), 2);
    assert_eq!(picked[0].slug, reg.all()[2].slug);
    assert_eq!(picked[1].slug, reg.all()[0].slug);
}

#[test]
fn tally_counts_each_label_once() {
    let labels: Vec<String> = ["a", "b", "a", "c", "a"].iter().map(|s| s.to_string()).collect();
    let t = tally(&labels);
    assert_eq!(t.len(), 3);
    assert_eq!(count_of(&t, "a"), Some(3));
    assert_eq!(count_of(&t, "b"), Some(1));
    assert_eq!(count_of(&t, "c"), Some(1));
    assert!(tally(&vec![]).is_empty());
}

#[test]
fn device_rows_are_bucketed() {
    let row = |b: &str, o: &str, d: &str, w: Option<i64>| (b.to_string(), o.to_string(), d.to_string(), w);
    let rows = vec![
        row("Chrome", "iOS", "mobile", Some(1)),
        row("Chrome", "Mac", "desktop", Some(0)),
        row("Safari", "iOS", "mobile", None),
    ];
    let b = device_buckets(&rows);
    assert_eq!(b.total, 3);
    assert_eq!(b.wechat_count, 1);
    assert!(b.browsers.contains(&("Chrome".to_string(), 2)));
    assert!(b.browsers.contains(&("Safari".to_string(), 1)));
    assert!(b.os.contains(&("iOS".to_string(), 2)));
    assert!(b.device_class.contains(&("desktop".to_string(), 1)));
}

#[test]
fn incidents_are_summarized_by_kind_and_step() {
    let recs = vec![
        IncidentRecord::new("p", "s", 4, "empty_response", "r"),
        IncidentRecord::new("p", "s", 4, "stuck_timeout", "r"),
        IncidentRecord::new("p", "s", 12, "empty_response", "r"),
    ];
    let sum = incident_summary(&recs);
    assert_eq!(sum.total, 3);
    assert_eq!(count_of(&sum.by_kind, "empty_response"), Some(2));
    assert_eq!(count_of(&sum.by_step, "4"), Some(2));
    assert_eq!(count_of(&sum.by_step, "12"), Some(1));
}

#[test]
fn persona_usage_merges_and_orders_by_rooms() {
    let replies = vec![("a".to_string(), 5), ("c".to_string(), 2)];
    let rooms = vec![("b".to_string(), 3), ("a".to_string(), 1)];
    let u = persona_usage(&replies, &rooms);
    assert_eq!(u.len(), 3);
    assert_eq!(u[0].persona_slug, "b");
    assert_eq!((u[0].rooms_with, u[0].replies), (3, 0));
    let a = u.iter().find(|x| x.persona_slug == "a").unwrap();
    assert_eq!((a.rooms_with, a.replies), (1, 5));
    let c = u.iter().find(|x| x.persona_slug == "c").unwrap();
    assert_eq!((c.rooms_with, c.replies), (0, 2));
    assert!(u.windows(2).all(|w| w[0].rooms_with >= w[1].rooms_with));
}

#[test]
fn telemetry_batches_and_events() {
    assert!(matches!(batch_verdict(0), BatchVerdict::Empty));
    assert!(matches!(batch_verdict(51), BatchVerdict::TooLarge));
    assert!(matches!(batch_verdict(50), BatchVerdict::Accept));
    assert!(event_accepted("page_view", "{}", &EventPayload::Object(vec![])));
    assert!(!event_accepted("", "{}", &EventPayload::Null));
    assert!(!event_accepted(&"x".repeat(65), "{}", &EventPayload::Null));
    assert!(!event_accepted("page_view", &"x".repeat(4097), &EventPayload::Null));
    assert!(!event_accepted(
        "chat_message_sent",
        "{}",
        &EventPayload::Object(vec!["text".to_string()])
    ));
}

#[test]
fn feedback_and_wishes_are_validated() {
    assert!(matches!(feedback_body("   "), Err(FeedbackRejection::Empty)));
    assert!(matches!(feedback_body(&"x".repeat(4097)), Err(FeedbackRejection::TooLong)));
    assert_eq!(feedback_body("  great  ").ok().as_deref(), Some("great"));
    assert_eq!(FeedbackRejection::TooLong.message(), "feedback too long (max 4KB)");
    assert!(feedback_context_kept("{}"));
    assert!(!feedback_context_kept(&"x".repeat(2049)));
    assert!(matches!(wish_name(" "), Err(WishRejection::Empty)));
    assert!(matches!(wish_name(&"字".repeat(31)), Err(WishRejection::TooLong)));
    assert_eq!(wish_name(" 苏轼 ").ok().as_deref(), Some("苏轼"));
    assert_eq!(WishRejection::Empty.message(), "许愿不能为空");
}

#[test]
fn filters_by_kind_and_step() {
    let recs = vec![
        IncidentRecord::new("p", "s", 2, "empty_response", "x"),
        IncidentRecord::new("p", "s", 4, "stuck_timeout", "y"),
        IncidentRecord::new("p", "s", 2, "core_error", "z"),
    ];
    let only_step2 = ListFilters { days: Some(7), kind: None, step: Some(2) };
    assert_eq!(recs.iter().filter(|r| incident_matches(r, &only_step2)).count(), 2);
    let only_timeout = ListFilters { days: Some(7), kind: Some("stuck_timeout".into()), step: None };
    let hits: Vec<&IncidentRecord> = recs.iter().filter(|r| incident_matches(r, &only_timeout)).collect();
    assert_eq!(hits.len(), 1);
    assert_eq!(hits[0].step, 4);
}

#[test]
fn fingerprint_coordinates() {
    let mut fp = PressureFingerprint::default();
    fp.time = 3;
    fp.info_completeness = 7;
    fp.cost_asymmetry = "downside_high".to_string();
    let v = fp.to_vec();
    assert_eq!(v.len(), 14);
    assert_eq!(v[0], 3);
    assert_eq!(v[12], 7);
    assert_eq!(v[13], -1);
    fp.cost_asymmetry = "extreme".to_string();
    assert_eq!(fp.to_vec()[13], 2);
    fp.cost_asymmetry = "neutral".to_string();
    assert_eq!(fp.to_vec()[13], 0);
}
