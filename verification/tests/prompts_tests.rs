use counsel::prompts::{
    angle_for_slot, classify_question_prompt, extract_short_summary, facilitator_define_prompt,
    facts_history_section, persona_name_of, persona_suggestion_prompt, rich_persona_opinion_prompt,
    summary_prompt, debate_persona_prompt, persona_follow_up_prompt, refine_persona_question_prompt,
};

#[test]
fn history_section_empty_or_wrapped() {
    assert_eq!(facts_history_section(""), "");
    let s = facts_history_section("Q1: A1");
    assert!(s.starts_with("\n\n## Previous Questions & Answers\nQ1: A1"));
    assert!(s.ends_with("(Note: do not repeat questions already asked)"));
}

#[test]
fn persona_name_from_rich_prompt() {
    assert_eq!(persona_name_of("# Title\n---\n\n  You are Paul Graham  \nmore"), "Paul Graham");
    assert_eq!(persona_name_of("# only headings\n## more"), "Persona");
}

#[test]
fn short_summary_caps_at_300_chars() {
    let long = "字".repeat(301);
    let s = extract_short_summary(&long, "N");
    assert_eq!(s, format!("**Persona Essence**: N\n\n{}...", "字".repeat(300)));
    assert_eq!(extract_short_summary("short", "N"), "**Persona Essence**: N\n\nshort");
}

#[test]
fn glossary_follows_persona() {
    let zh = rich_persona_opinion_prompt("毛泽东\n生平", "raw", "def", "facts");
    assert!(zh.contains("不要使用任何英文创业术语"));
    let en = rich_persona_opinion_prompt("You are Paul Graham", "raw", "def", "facts");
    assert!(en.contains("可以保留英文原词"));
    assert!(en.contains("**Quick Persona Summary (Paul Graham):**"));
    let kf = rich_persona_opinion_prompt("Bruce Lee", "raw", "def", "facts");
    assert!(kf.contains("Jeet Kune Do"));
}

#[test]
fn angles_rotate_every_twelve() {
    assert_eq!(angle_for_slot(0), angle_for_slot(12));
    assert_ne!(angle_for_slot(0), angle_for_slot(1));
    assert!(angle_for_slot(11).starts_with("长周期回看"));
}

#[test]
fn define_prompt_places_context_before_input() {
    let p = facilitator_define_prompt("我的问题", "wiki head\n---\nold stuff", "", "beliefs", "");
    let ctx = p.find("## 本项目的当前信念 Posterior").unwrap();
    let wiki = p.find("## 案主画像").unwrap();
    let input = p.rfind("## 当前案主输入").unwrap();
    assert!(ctx < wiki && wiki < input);
    assert!(!p.contains("old stuff"));
    assert!(!p.contains("## 上一次 Session"));
}

#[test]
fn long_context_is_capped() {
    let beliefs = "b".repeat(2500);
    let p = facilitator_define_prompt("t", "", "", &beliefs, "");
    assert!(p.contains("[上下文已截取，仅保留最近 2000 字]\n"));
    assert!(!p.contains(&"b".repeat(2001)));
}

#[test]
fn summary_weaves_premortem_only_when_present() {
    let with = summary_prompt("r", "d", "f", "deb", "risk path");
    assert!(with.contains("## 事前演练（Step 6.5 · 一年后失败假想）\nrisk path"));
    let without = summary_prompt("r", "d", "f", "deb", "   ");
    assert!(!without.contains("事前演练（Step 6.5"));
    assert!(without.contains("「{阵营A} vs {阵营B}：{分歧点}」"));
}

#[test]
fn debate_prompt_names_dimension_twice() {
    let p = debate_persona_prompt("topic", "facts", "时机");
    assert!(p.contains("## Current Debate Dimension\n时机"));
    assert!(p.contains("在 \"时机\" 这个维度上"));
}

#[test]
fn suggestion_roster_lists_slugs() {
    let av = vec![
        ("mao-zedong".to_string(), "毛泽东".to_string(), "Revolutionary".to_string()),
        ("pg".to_string(), "PG".to_string(), "x".repeat(90)),
    ];
    let p = persona_suggestion_prompt("问题", &av);
    assert!(p.contains("- slug=`mao-zedong` · 毛泽东 — Revolutionary\n- slug=`pg` · PG — "));
    assert!(p.contains(&format!("— {}\n", "x".repeat(80))));
    assert!(!p.contains(&"x".repeat(81)));
}

#[test]
fn follow_up_uses_first_plain_line() {
    let p = persona_follow_up_prompt("# head\n\nYou are Jobs\nrest", "r", "d", "op", "q");
    assert!(p.contains("## 你（You are Jobs）刚刚在 Step 4 给出的发言"));
    let q = persona_follow_up_prompt("# only", "r", "d", "op", "q");
    assert!(q.contains("## 你（某位幕僚）"));
}

#[test]
fn refine_prompt_defaults_prior_block() {
    let p = refine_persona_question_prompt("rich", "raw", "def", "angle", "PG", "orig", "  ");
    assert!(p.contains("（暂无——你是第一位被打开的幕僚）"));
    assert!(p.starts_with("# 你是 PG（不是其他幕僚）"));
}

#[test]
fn classify_prompt_embeds_question() {
    assert!(classify_question_prompt("我该创业吗").contains("## 案主问题\n我该创业吗\n"));
}
