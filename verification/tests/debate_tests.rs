use counsel::admin::recent_first_order;
use counsel::counsel::DefineState;
use counsel::flow::{
    debate_needs_middle_round, debate_positions_md, debate_record, debate_round1, define_outcome,
    middle_responses_md,
};
use counsel::model::{estimate_messages_tokens, ChatMessage};
use counsel::sse::LineDecoder;

fn triple(n: &str, p: &str, c: &str) -> (String, String, String) {
    (n.to_string(), p.to_string(), c.to_string())
}

fn pair(n: &str, p: &str) -> (String, String) {
    (n.to_string(), p.to_string())
}

#[test]
fn define_first_call_returns_the_draft_and_awaits_confirmation() {
    let (text, next, file) = define_outcome(&DefineState::Init, None, false, "", "草稿").unwrap();
    assert_eq!(text, "草稿");
    assert!(matches!(next, DefineState::Confirming { attempt: 1, ref draft } if draft == "草稿"));
    assert!(file.is_none());
}

#[test]
fn define_auto_simulation_locks_the_first_draft_and_writes_it_stripped() {
    let (text, next, file) =
        define_outcome(&DefineState::Init, None, true, "", "<think>x</think> 问题 ").unwrap();
    assert_eq!(text, "<think>x</think> 问题 ");
    assert!(matches!(next, DefineState::Locked));
    assert_eq!(file.as_deref(), Some("问题"));
}

#[test]
fn define_confirmation_locks_the_draft_not_the_reply() {
    let st = DefineState::Confirming { attempt: 1, draft: "草稿<think>t</think>".to_string() };
    let (text, next, file) = define_outcome(&st, Some(" OK "), false, "", "ignored").unwrap();
    assert_eq!(text, "草稿<think>t</think>");
    assert!(matches!(next, DefineState::Locked));
    assert_eq!(file.as_deref(), Some("草稿"));
}

#[test]
fn define_correction_redrafts_as_attempt_two() {
    let st = DefineState::Confirming { attempt: 1, draft: "d1".to_string() };
    let (text, next, file) = define_outcome(&st, Some("不对，是别的"), false, "", "d2").unwrap();
    assert_eq!(text, "d2");
    assert!(matches!(next, DefineState::Confirming { attempt: 2, ref draft } if draft == "d2"));
    assert!(file.is_none());
}

#[test]
fn define_second_draft_is_force_locked() {
    let st = DefineState::Confirming { attempt: 2, draft: "d2".to_string() };
    let (text, next, file) = define_outcome(&st, None, false, "", "").unwrap();
    assert_eq!(text, "d2");
    assert!(matches!(next, DefineState::Locked));
    assert_eq!(file.as_deref(), Some("d2"));
}

#[test]
fn define_locked_returns_the_stored_definition_and_writes_nothing() {
    let (text, next, file) = define_outcome(&DefineState::Locked, Some("x"), false, "已定义", "r").unwrap();
    assert_eq!(text, "已定义");
    assert!(matches!(next, DefineState::Locked));
    assert!(file.is_none());
}

#[test]
fn define_first_attempt_without_input_is_invalid() {
    let st = DefineState::Confirming { attempt: 1, draft: "d1".to_string() };
    assert!(define_outcome(&st, None, false, "", "r").is_none());
}

#[test]
fn debate_round1_splits_sides_from_middle_and_drops_skips() {
    let results = vec![
        triple("A", "支持", "pro"),
        triple("B", " skip ", "con"),
        triple("C", "中立看法", "neutral"),
        triple("D", "反对", "con"),
        triple("E", "   ", "pro"),
        triple("F", "_（F 此次未能加入辩论）_", "skip"),
    ];
    let (sided, middle) = debate_round1(&results);
    assert_eq!(sided, vec![pair("A", "支持"), pair("D", "反对")]);
    assert_eq!(middle, vec![pair("C", "中立看法"), pair("F", "_（F 此次未能加入辩论）_")]);
}

#[test]
fn debate_positions_put_sides_first_then_middle() {
    let md = debate_positions_md(&vec![pair("A", "a")], &vec![pair("C", "c")]);
    assert_eq!(md, "## A\na\n\n## C (Middle)\nc\n\n");
    assert_eq!(middle_responses_md(&vec![pair("C", "r")]), "## C (Middle Response)\nr\n\n");
}

#[test]
fn middle_round_runs_only_with_both_groups() {
    assert!(debate_needs_middle_round(&vec![pair("A", "a")], &vec![pair("C", "c")]));
    assert!(!debate_needs_middle_round(&vec![], &vec![pair("C", "c")]));
    assert!(!debate_needs_middle_round(&vec![pair("A", "a")], &vec![]));
}

#[test]
fn debate_record_appends_a_dimension() {
    let r = debate_record("", "维度一", "## A\na\n\n", "");
    assert_eq!(r, "## 维度一\n\n### 第一轮立场\n## A\na\n\n\n\n---");
    let r2 = debate_record(&r, "维度二", "## B\nb<think>x</think>\n\n", "## C (Middle Response)\nc\n\n");
    assert_eq!(
        r2,
        "## 维度一\n\n### 第一轮立场\n## A\na\n\n\n\n---\n\n## 维度二\n\n### 第一轮立场\n## B\nb\n\n\n\n### 中立方回应\n## C (Middle Response)\nc\n\n\n\n---"
    );
}

#[test]
fn decoder_returns_cjk_line_fed_byte_by_byte() {
    let mut d = LineDecoder::new();
    let bytes = "测试\n".as_bytes();
    let mut all = Vec::new();
    for (k, b) in bytes.iter().enumerate() {
        let got = d.feed(&[*b]);
        if k + 1 < bytes.len() {
            assert!(got.is_empty());
        }
        all.extend(got);
    }
    assert_eq!(all, vec!["测试".to_string()]);
}

#[test]
fn recent_first_order_keeps_ties_in_place() {
    let seen = vec![
        Some("2026-01-01".to_string()),
        None,
        Some("2026-03-01".to_string()),
        Some("2026-01-01".to_string()),
        None,
    ];
    assert_eq!(recent_first_order(&seen), vec![2, 0, 3, 1, 4]);
}

#[test]
fn message_estimate_adds_over_concatenation() {
    let a = vec![ChatMessage::system("你好世界"), ChatMessage::user("hello")];
    let b = vec![ChatMessage::user("再见 goodbye")];
    let mut ab = a.clone();
    ab.extend(b.clone());
    assert_eq!(estimate_messages_tokens(&[]), 0);
    assert_eq!(estimate_messages_tokens(&ab), estimate_messages_tokens(&a) + estimate_messages_tokens(&b));
}
