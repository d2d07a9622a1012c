use counsel::counsel::{ensure_chinese_response, strip_think_tags, SessionMetrics, StepMetrics, SessionState};

#[test]
fn strips_single_block() {
    assert_eq!(strip_think_tags("<think>reasoning</think>answer"), "answer");
}

#[test]
fn strips_multiline() {
    let input = "Before\n<think>\nmulti\nline\n</think>\nAfter";
    assert_eq!(strip_think_tags(input), "Before\n\nAfter");
}

#[test]
fn handles_no_tags() {
    assert_eq!(strip_think_tags("plain text"), "plain text");
}

#[test]
fn handles_unclosed() {
    assert_eq!(strip_think_tags("visible<think>never ends"), "visible");
}

#[test]
fn handles_multiple_blocks() {
    assert_eq!(strip_think_tags("a<think>x</think>b<think>y</think>c"), "abc");
}

#[test]
fn strip_trims_plain_text() {
    assert_eq!(strip_think_tags("  padded \n"), "padded");
}

#[test]
fn prepends_for_chinese_question() {
    let q = "我作为创业者该怎么决定下一步";
    let out = ensure_chinese_response(q);
    assert!(out.starts_with("【请全程使用中文回答"));
    assert!(out.contains(q));
}

#[test]
fn passthrough_for_english_question() {
    let q = "Should I take this job offer or stay?";
    let out = ensure_chinese_response(q);
    assert_eq!(out, q);
}

#[test]
fn idempotent() {
    let q = "我要不要换工作";
    let once = ensure_chinese_response(q);
    let twice = ensure_chinese_response(&once);
    assert_eq!(once, twice);
}

#[test]
fn ignores_short_chinese() {
    let q = "Hi 我 hello world test";
    let out = ensure_chinese_response(q);
    assert_eq!(out, q);
}

#[test]
fn metrics_accumulate_and_render() {
    let mut m = SessionMetrics::new();
    m.add_step(StepMetrics {
        step: 2,
        step_name: "Define".to_string(),
        duration_ms: 1500,
        prompt_tokens: 100,
        completion_tokens: 50,
        total_tokens: 150,
    });
    m.add_step(StepMetrics {
        step: 3,
        step_name: "Facts".to_string(),
        duration_ms: 500,
        prompt_tokens: 10,
        completion_tokens: 5,
        total_tokens: 15,
    });
    assert_eq!(m.total_duration_ms, 2000);
    assert_eq!(m.total_prompt_tokens, 110);
    assert_eq!(m.total_completion_tokens, 55);
    assert_eq!(m.total_tokens, 165);
    let md = m.to_markdown("2.0", &vec!["1.5".to_string(), "0.5".to_string()]);
    assert!(md.contains("## Step 2: Define"));
    assert!(md.contains("1500ms (1.5s)"));
    assert!(md.contains("## Step 3: Facts"));
}

#[test]
fn new_session_state_is_empty() {
    let s = SessionState::new("p".to_string(), "s".to_string(), "raw".to_string());
    assert_eq!(s.current_step, 0);
    assert!(s.defined.is_none());
    assert!(s.opinions.is_empty());
    assert!(s.dimensions.is_empty());
    assert_eq!(s.raw_input, "raw");
}
