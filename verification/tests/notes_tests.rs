use counsel::flow::{action_failure_note, auto_answer_prompt, belief_system_content, eval_failure_note, facts_user_message};
use counsel::model::{estimate_messages_tokens, estimate_tokens_static, ChatMessage};

#[test]
fn failure_notes() {
    assert_eq!(action_failure_note("孙子"), "_（孙子 此次未能给出行动建议——LLM 调用失败。）_");
    assert_eq!(
        eval_failure_note("孙子", "429"),
        "_（孙子 此次评价未能返回——LLM 调用失败：429。可在 Settings 切换模型或重试。）_"
    );
}

#[test]
fn facts_and_auto_answer_prompts() {
    let m = facts_user_message("孔子", "资源");
    assert!(m.starts_with("**你是 孔子**（不是其他幕僚"));
    assert!(m.contains("你负责的角度是「资源」。"));
    assert!(m.ends_with("- 总长 2-5 句中文"));
    assert_eq!(
        auto_answer_prompt("A", "Q?", "raw", "def"),
        "As the client, answer this question from A about your situation:\n\nQuestion: Q?\n\nContext:\n- Raw input: raw\n- Defined topic: def\n\nProvide a clear, direct answer in 2-3 sentences."
    );
}

#[test]
fn belief_file() {
    let c = belief_system_content("s1", "2026-04-26", "P");
    assert!(c.starts_with("# 信念体系（最新 Posterior）\n\n*本项目最近一次私董会更新的贝叶斯信念。Session s1 于 2026-04-26 产出。"));
    assert!(c.ends_with("---\n\nP\n"));
}

#[test]
fn message_token_estimate_adds_overhead() {
    let msgs = vec![ChatMessage::system("你好"), ChatMessage::user("hello world")];
    let each = estimate_tokens_static("你好") + estimate_tokens_static("hello world");
    assert!(estimate_messages_tokens(&msgs) > each);
}
