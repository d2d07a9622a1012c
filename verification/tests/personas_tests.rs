use counsel::personas::{all_personas, default_personas, get_persona_name, get_persona_prompt, steve_jobs, sun_tzu};

#[test]
fn builtin_personas() {
    let all = all_personas();
    assert_eq!(all.len(), 12);
    assert_eq!(all[0].id, "steve");
    assert_eq!(all[11].name, "Jane Addams");
    let p = steve_jobs().to_prompt("Should I pivot?");
    assert!(p.starts_with("## Your Identity\nName: Steve Jobs\nTitle: Product Visionary\nRole: "));
    assert!(p.contains("## Current Situation\nShould I pivot?\n"));
    assert_eq!(sun_tzu().name, "Sun Tzu");
}

#[test]
fn legacy_prompts_are_not_shipped() {
    assert!(get_persona_prompt("mao").is_none());
    assert!(get_persona_name("mao").is_none());
}

#[test]
fn default_roster() {
    let d = default_personas();
    assert_eq!(d.len(), 12);
    assert_eq!(d[7].0, "paul-graham");
    assert_eq!(d[11].1, "Zhang Yiming");
}
