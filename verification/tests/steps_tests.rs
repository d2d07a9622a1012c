use counsel::steps::{categorize_position, is_confirmation, parse_dimensions, parse_todos_insights, prepend_user_reactions};

#[test]
fn test_categorize_position_keywords() {
    assert_eq!(categorize_position("POSITION: FOR this proposal"), "pro");
    assert_eq!(categorize_position("POSITION: AGAINST this approach"), "con");
    assert_eq!(categorize_position("I see BOTH SIDES of this argument"), "middle");
}

#[test]
fn chinese_label_wins() {
    assert_eq!(categorize_position("立场：反方\n\n我反对……"), "con");
    assert_eq!(categorize_position("  立场:  中立"), "middle");
    assert_eq!(categorize_position("我支持这个方向"), "pro");
    assert_eq!(categorize_position("支持 支持 反对"), "pro");
    assert_eq!(categorize_position("反对 反方 支持"), "con");
    assert_eq!(categorize_position("nothing here"), "middle");
}

#[test]
fn test_categorize_position_chinese_no_panic() {
    let long = "我".repeat(400);
    let r = categorize_position(&long);
    assert!(r == "pro" || r == "con" || r == "middle");
}

#[test]
fn confirmations() {
    assert!(is_confirmation(" 对 "));
    assert!(is_confirmation("OK"));
    assert!(is_confirmation("Yes"));
    assert!(is_confirmation("没问题"));
    assert!(!is_confirmation("不对"));
    assert!(!is_confirmation("okay"));
}

#[test]
fn dimensions_from_chinese_markers() {
    let r = "## 时机\n核心冲突：现在做还是等\n分歧要点：一方说快，一方说慢\n\n## 资源\n核心冲突: 钱不够\n";
    let d = parse_dimensions(r);
    assert_eq!(d.len(), 2);
    assert_eq!(d[0].name, "时机");
    assert_eq!(d[0].core_conflict, "现在做还是等");
    assert_eq!(d[0].pro_argument, "一方说快，一方说慢");
    assert_eq!(d[1].core_conflict, "钱不够");
}

#[test]
fn dimensions_from_english_markers() {
    let r = "## Speed\nCore Conflict: fast vs safe\nPro argument: ship now: really\nCon: wait\n## Unanimous view\nignored\n## Scope\nPoints of Contention: One side holds that focus wins while the other side argues that breadth wins\n";
    let d = parse_dimensions(r);
    assert_eq!(d.len(), 2);
    assert_eq!(d[0].core_conflict, "fast vs safe");
    assert_eq!(d[0].pro_argument, "ship now");
    assert_eq!(d[0].con_argument, "wait");
    assert_eq!(d[1].name, "Scope");
    assert_eq!(d[1].pro_argument, "One side holds that focus wins");
    assert_eq!(d[1].con_argument, "breadth wins");
}

#[test]
fn dimensions_default_to_general() {
    let d = parse_dimensions("no headings at all");
    assert_eq!(d.len(), 1);
    assert_eq!(d[0].name, "General");
    assert_eq!(d[0].core_conflict, "no headings at all");
    assert!(parse_dimensions("   ").is_empty());
}

#[test]
fn todos_and_insights() {
    let (t, i) = parse_todos_insights("intro\n## To-Do\n- [ ] a\n- [ ] b\n## Key Insights\n- x\n");
    assert_eq!(t, "- [ ] a\n- [ ] b");
    assert_eq!(i, "- x");
}

#[test]
fn reactions_are_tiered() {
    let md = "## 2026 — Step 4 — PG — ⭐\n**Snippet**: nice\n\n## 2026 — Step 6 — 毛 — ❗\n## 2026 — Step 7 — Jobs — 📝\n**Note**: 很重要\n";
    let out = prepend_user_reactions(md, "PROMPT".to_string());
    let t1 = out.find("### Tier-1").unwrap();
    let t2 = out.find("### Tier-2").unwrap();
    let t3 = out.find("### Tier-3").unwrap();
    assert!(t1 < t2 && t2 < t3);
    assert!(out.contains("- [Step 7 · Jobs]\n  案主笔记（verbatim）: 很重要"));
    assert!(out.contains("- [Step 4 · PG]\n> nice"));
    assert!(out.ends_with("---\n\nPROMPT"));
    assert_eq!(prepend_user_reactions("  \n ", "P".to_string()), "P");
    let raw = prepend_user_reactions("just text", "P".to_string());
    assert!(raw.contains("just text\n请在生成下面内容时"));
}
