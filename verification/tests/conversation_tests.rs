use counsel::conversation::{ConversationContext, ConversationLog, ConversationTurn};

#[test]
fn log_records_steps_and_turns() {
    let mut log = ConversationLog::new("p".into(), "s".into());
    log.add_turn("nobody".into(), "dropped".into(), 1, None);
    assert!(log.step_conversations.is_empty());
    log.start_step(2, "Define".into(), 100);
    log.add_turn("Facilitator".into(), "line one\nline two".into(), 150, Some(42));
    log.add_turn("User (Auto)".into(), "ok".into(), 160, None);
    log.end_step(400);
    log.finalize(2500, 12345);
    assert_eq!(log.step_conversations.len(), 1);
    assert_eq!(log.step_conversations[0].turns.len(), 2);
    assert_eq!(log.step_conversations[0].end_time_ms, Some(400));
    assert_eq!(log.total_tokens, 12345);
    let md = log.to_markdown("2.5");
    assert_eq!(
        md,
        "# Conversation Log\n\n**Total Time:** 2.5s | **Total Tokens:** ~12K\n\n---\n\n## Step 2: Define (300ms)\n\n**Facilitator** [~42 tokens]:\n> line one\n> line two\n\n**User (Auto)** :\n> ok\n\n---\n\n"
    );
}

#[test]
fn unfinished_step_has_zero_duration() {
    let mut log = ConversationLog::new("p".into(), "s".into());
    log.start_step(4, "Opinions".into(), 1000);
    assert!(log.to_markdown("0.0").contains("## Step 4: Opinions (0ms)"));
}

#[test]
fn auto_response_prompt_includes_history() {
    let mut ctx = ConversationContext::new("p".into(), "s".into(), 3, "Facts".into());
    let empty = ctx.build_auto_response_prompt("Q?");
    assert!(!empty.contains("## Conversation History"));
    assert!(empty.contains("## Current Question from Facilitator\n\nQ?\n\n"));
    ctx.history.push(ConversationTurn { speaker: "Facilitator".into(), content: "Hi".into(), timestamp_ms: 0, tokens: None });
    let p = ctx.build_auto_response_prompt("Q?");
    assert!(p.starts_with("You are simulating a typical user in a coaching session.\n\n## Conversation History\n\nFacilitator: Hi\n\n"));
    assert!(p.ends_with("Respond ONLY with the user's response, no quotes or labels."));
    let _ = ctx.elapsed_ms();
}
