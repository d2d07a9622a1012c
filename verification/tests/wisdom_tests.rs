use counsel::wisdom::{
    detect_phase_from_text, extract_phase_section, parse_consistency_audit_section,
    parse_lifeline_phases, parse_situation_card, parse_theory, parse_voice, parse_cadence,
    normalize_persona_slug, slugify, extract_year_range, collect_years, Cadence, LifelinePhase,
    PersonaRegistry, VoiceTexture, WisdomPersona, SituationCard, PressureFingerprint,
};

fn persona(slug: &str, name: &str, title: &str) -> WisdomPersona {
    WisdomPersona {
        slug: slug.into(),
        name: name.into(),
        title: title.into(),
        worldview: String::new(),
        philosophy: String::new(),
        values: String::new(),
        methodology: String::new(),
        situations: vec![],
        voice: VoiceTexture::default(),
        cadence: Cadence::Unset,
        lifeline_md: None,
        helping_signature_md: None,
        consistency_audit_md: None,
        lifeline_phases: Vec::new(),
        legacy_prompt: None,
    }
}

#[test]
fn test_parse_theory() {
    let content = r#"# Mao Zedong Theory

## 世界观 (Worldview)
矛盾是事物发展的根本动力。一切事物中都包含矛盾，关键是找到主要矛盾。

## 人生观 (Life Philosophy)
实践出真知。没有调查就没有发言权。

## 价值观 (Values)
为人民服务。群众路线。自力更生。

## 方法论 (Methodology)
矛盾分析法：在复杂局面中找到主要矛盾和矛盾的主要方面。
"#;
    let (wv, ph, val, meth) = parse_theory(content);
    assert!(wv.contains("矛盾是事物发展"));
    assert!(ph.contains("实践出真知"));
    assert!(val.contains("为人民服务"));
    assert!(meth.contains("矛盾分析法"));
}

#[test]
fn test_parse_voice() {
    let content = r#"## First-Person Markers
我们、同志、斗争
## Metaphor Domains
territory、peasant、base area
## Sentence Patterns
Parallel structure: 不是X而是Y
## Forbidden Patterns
作为X他认为；X可能会说
"#;
    let voice = parse_voice(content);
    assert_eq!(voice.first_person_markers, vec!["我们", "同志", "斗争"]);
    assert_eq!(voice.metaphor_domains, vec!["territory", "peasant", "base area"]);
    assert!(!voice.forbidden_patterns.is_empty());
}

#[test]
fn test_parse_situation_card() {
    let content = r#"# 井冈山根据地建立

## Situation
1927年秋收起义失败后，兵力极弱，攻城无望。

## Contradiction
象征性胜利 vs 生存能力。

## Reasoning
打不赢就换战场。

## Conclusion
放弃攻长沙，转向井冈山。

## Abstract Form
When resources are insufficient, consolidate before expanding.

## Pressure
time: 8
resource: 10
survival: 9
competition: 7
social: 7
uncertainty: 8
identity: 9
emotional: 7
moral: 3
face: 8
isolation: 9
irreversibility: 5
info_completeness: 4
cost_asymmetry: extreme
"#;
    let card = parse_situation_card(content, "mao-001");
    assert_eq!(card.title, "井冈山根据地建立");
    assert!(card.situation.contains("秋收起义"));
    assert_eq!(card.pressure.resource, 10);
    assert_eq!(card.pressure.survival, 9);
    assert_eq!(card.pressure.cost_asymmetry, "extreme");
}

#[test]
fn card_title_falls_back_to_id() {
    let card = parse_situation_card("## Situation\nno title line\n", "card-7");
    assert_eq!(card.title, "card-7");
    assert_eq!(card.id, "card-7");
    assert_eq!(card.situation, "no title line");
}

#[test]
fn test_persona_registry_accepts_legacy_short_slugs() {
    let registry = PersonaRegistry::from_personas(vec![
        persona("paul-graham", "Paul Graham", "YC"),
        persona("mao-zedong", "毛泽东", "Strategist"),
    ]);
    assert_eq!(registry.get("pg").unwrap().slug, "paul-graham");
    let picked = registry.filtered(&["pg".to_string(), "mao".to_string()]);
    assert_eq!(picked.iter().map(|p| p.slug.as_str()).collect::<Vec<_>>(), vec!["paul-graham", "mao-zedong"]);
}

#[test]
fn registry_drops_unknown_slugs_and_keeps_order() {
    let registry = PersonaRegistry::from_personas(vec![
        persona("paul-graham", "Paul Graham", "YC"),
        persona("mao-zedong", "毛泽东", "Strategist"),
    ]);
    let picked = registry.filtered(&["mao-zedong".to_string(), "bogus".to_string(), "paul-graham".to_string()]);
    assert_eq!(picked.iter().map(|p| p.slug.as_str()).collect::<Vec<_>>(), vec!["mao-zedong", "paul-graham"]);
    assert!(registry.filtered(&[]).is_empty());
    assert!(registry.get("nobody").is_none());
    assert_eq!(registry.len(), 2);
    assert!(!registry.is_empty());
    let tuples = registry.as_tuples();
    assert_eq!(tuples[0].0, "paul-graham");
    assert_eq!(tuples[0].3, "You are Paul Graham. YC.");
}

#[test]
fn normalizes_every_legacy_alias() {
    assert_eq!(normalize_persona_slug("mao"), "mao-zedong");
    assert_eq!(normalize_persona_slug("pg"), "paul-graham");
    assert_eq!(normalize_persona_slug("jobs"), "steve-jobs");
    assert_eq!(normalize_persona_slug("brucelee"), "bruce-lee");
    assert_eq!(normalize_persona_slug("kk"), "kevin-kelly");
    assert_eq!(normalize_persona_slug("laozi"), "laozi");
}

#[test]
fn normalizing_a_slug_twice_changes_nothing_more() {
    for s in ["mao", "pg", "jobs", "brucelee", "kk", "laozi", "mao-zedong", ""] {
        let once = normalize_persona_slug(s);
        assert_eq!(normalize_persona_slug(&once), once);
    }
}

#[test]
fn test_registry_builds_stub_personas() {
    let r = PersonaRegistry::test_registry(3);
    assert_eq!(r.len(), 3);
    assert_eq!(r.all()[2].slug, "test-persona-3");
    assert_eq!(r.all()[0].legacy_prompt.as_deref(), Some("You are Test Persona 1. You are a Advisor 1"));
    assert_eq!(PersonaRegistry::test_registry(9).len(), 6);
    assert!(PersonaRegistry::test_registry(0).is_empty());
}

#[test]
fn test_build_prompt_with_layers() {
    let mut p = persona("test", "Test Persona", "Test Title");
    p.worldview = "The world is interconnected and everything is a system that can be understood through feedback loops.".into();
    p.philosophy = "Life is about learning.".into();
    p.values = "Truth above comfort.".into();
    p.methodology = "First principles analysis.".into();
    p.voice = VoiceTexture {
        first_person_markers: vec!["I".into(), "we".into()],
        metaphor_domains: vec!["systems".into()],
        sentence_patterns: vec!["Short declarative".into()],
        forbidden_patterns: vec!["As X he thinks".into()],
    };
    let prompt = p.build_system_prompt("test situation", None);
    assert!(prompt.contains("你是Test Persona"));
    assert!(prompt.contains("世界观"));
    assert!(prompt.contains("interconnected"));
    assert!(prompt.contains("说话方式"));
    assert!(prompt.contains("I、we"));
}

#[test]
fn test_build_prompt_fallback_to_legacy() {
    let mut p = persona("test", "Test", "Tester");
    p.legacy_prompt = Some("You are Test, a legendary tester with deep knowledge.".into());
    let prompt = p.build_system_prompt("situation", None);
    assert_eq!(prompt, "You are Test, a legendary tester with deep knowledge.");
}

#[test]
fn prompt_without_layers_or_legacy_is_one_line() {
    let p = persona("x", "Xavier", "Strategist");
    assert_eq!(p.build_system_prompt("anything", None), "You are Xavier. Strategist.");
    assert_eq!(p.short_description(), "You are Xavier. Strategist.");
}

#[test]
fn short_description_uses_first_worldview_sentence() {
    let mut p = persona("x", "Xavier", "Strategist");
    p.worldview = "  Everything flows in cycles. Second sentence.".into();
    assert_eq!(p.short_description(), "You are Xavier. Everything flows in cycles.");
}

#[test]
fn ranked_cards_are_included_in_order() {
    let mut p = persona("m", "M", "T");
    p.worldview = "w".repeat(60);
    let card = |t: &str| SituationCard {
        id: t.into(),
        title: t.into(),
        situation: "s".into(),
        contradiction: "c".into(),
        reasoning: "r".into(),
        conclusion: "k".into(),
        abstract_form: "a".into(),
        pressure: PressureFingerprint::default(),
    };
    p.situations = vec![card("first"), card("second"), card("third"), card("fourth")];
    let ranked = p.build_system_prompt("q", Some(&[3, 0]));
    let a = ranked.find("### fourth").unwrap();
    let b = ranked.find("### first").unwrap();
    assert!(a < b);
    assert!(!ranked.contains("### second"));
    let unranked = p.build_system_prompt("q", None);
    assert!(unranked.contains("### third"));
    assert!(!unranked.contains("### fourth"));
}

#[test]
fn test_parse_lifeline_phases_extracts_year_ranges() {
    let content = r#"# Bruce Lee Lifeline

## Why this file exists
intro stuff (no year, should be skipped)

## Phase 1 · 香港童年 · 1945–1959 · ages 5–18
`phase-hk-childhood`

body...

## Phase 2 · USA student · 1959–1964 · ages 18–23
`phase-usa-student`

body...

## Phase 5 · HK superstar · 1971–1973 · ages 30–32
`phase-hk-superstar`

## Cross-phase observations
not a phase, no year
"#;
    let phases = parse_lifeline_phases(content);
    assert_eq!(phases.len(), 3, "should skip intro and cross-phase headings");
    assert_eq!(phases[0].phase_id, "phase-hk-childhood");
    assert_eq!(phases[0].start_year, Some(1945));
    assert_eq!(phases[0].end_year, Some(1959));
    assert_eq!(phases[0].start_age, Some(5));
    assert_eq!(phases[0].end_age, Some(18));
    assert_eq!(phases[2].phase_id, "phase-hk-superstar");
    assert_eq!(phases[2].start_year, Some(1971));
}

#[test]
fn test_detect_phase_from_text_pins_year() {
    let phases = vec![
        LifelinePhase {
            phase_id: "phase-a".into(),
            display_name: "Phase A · 1959–1964".into(),
            start_year: Some(1959),
            end_year: Some(1964),
            start_age: None,
            end_age: None,
        },
        LifelinePhase {
            phase_id: "phase-b".into(),
            display_name: "Phase B · 1971–1973".into(),
            start_year: Some(1971),
            end_year: Some(1973),
            start_age: None,
            end_age: None,
        },
    ];
    let q = "客户问的是 1972 年那个时期";
    let hit = detect_phase_from_text(&phases, q).unwrap();
    assert_eq!(hit.phase_id, "phase-b");
    let q2 = "asking about 2010";
    assert!(detect_phase_from_text(&phases, q2).is_none());
    let q3 = "asking generically about life advice";
    assert!(detect_phase_from_text(&phases, q3).is_none());
}

#[test]
fn test_extract_phase_section_slices_until_next_heading() {
    let lifeline = "## Phase 1 · 1945–1959\nbody of phase 1\nline 2\n\n## Phase 2 · 1959–1964\nbody of phase 2\n";
    let p1 = extract_phase_section(lifeline, "Phase 1 · 1945–1959").unwrap();
    assert!(p1.contains("body of phase 1"));
    assert!(!p1.contains("Phase 2"));
}

#[test]
fn test_parse_consistency_audit_section() {
    let theory = "## 世界观\nfoo\n\n## 言行一致性 / Consistency Audit\nprinciple X: enacted in card 1\nprinciple Y: violated in 1972\n\n## Other\nignored\n";
    let audit = parse_consistency_audit_section(theory).unwrap();
    assert!(audit.contains("principle X"));
    assert!(audit.contains("principle Y"));
    assert!(!audit.contains("foo"));
    assert!(!audit.contains("ignored"));
}

#[test]
fn cadence_is_read_from_its_heading() {
    assert!(matches!(parse_cadence("## Cadence · Terse\nshort lines\n"), Cadence::Terse));
    assert!(matches!(parse_cadence("intro\n  ## CADENCE: discursive\n"), Cadence::Discursive));
    assert!(matches!(parse_cadence("## Cadence\nterse\n"), Cadence::Unset));
    assert_eq!(Cadence::Terse.max_tokens_step3(), 200);
    assert_eq!(Cadence::Unset.max_tokens_step6(), 350);
    assert_eq!(Cadence::Discursive.max_tokens_refine(), 250);
}

#[test]
fn slugs_and_years() {
    assert_eq!(slugify("Phase 1 · Hong-Kong"), "phase1hong-kong");
    assert_eq!(collect_years("from 1945 to 1959, not 123 or 20245"), vec![1945, 1959]);
    assert_eq!(extract_year_range("## Phase 3 · 1964–1971"), Some((1964, Some(1971))));
    assert_eq!(extract_year_range("## no years"), None);
}
