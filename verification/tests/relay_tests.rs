use counsel::relay::{release_ready, AgentError, ChunkRelay};
use counsel::wisdom::{age_range_of, default_persona_name, lifeline_phases_of, persona_dir_included, persona_filter};

#[test]
fn nothing_sent_below_threshold() {
    assert!(release_ready(&"a".repeat(499)).is_none());
    let mut r = ChunkRelay::new();
    assert!(r.push("hello").is_none());
    assert_eq!(r.finish().as_deref(), Some("hello"));
    assert!(r.finish().is_none());
}

#[test]
fn cut_after_last_sentence_end() {
    let text = format!("{}.{}!{}", "a".repeat(100), "b".repeat(100), "c".repeat(400));
    let (piece, rest) = release_ready(&text).unwrap();
    assert_eq!(piece.len(), 202);
    assert!(piece.ends_with('!'));
    assert_eq!(format!("{}{}", piece, rest), text);
}

#[test]
fn cut_at_char_boundary_without_sentence_end() {
    let text = "字".repeat(200);
    let (piece, rest) = release_ready(&text).unwrap();
    assert_eq!(piece.chars().count(), 166);
    assert_eq!(piece.len(), 498);
    assert_eq!(rest.chars().count(), 34);
}

#[test]
fn relayed_pieces_spell_the_reply() {
    let chunks = ["第一句话。", &"内容".repeat(120), "\n第二段", &"x".repeat(700), "结尾"];
    let mut r = ChunkRelay::new();
    let mut out = String::new();
    for c in chunks.iter() {
        if let Some(p) = r.push(c) {
            assert!(!p.is_empty());
            out.push_str(&p);
        }
    }
    if let Some(p) = r.finish() {
        out.push_str(&p);
    }
    assert_eq!(out, chunks.concat());
    assert_eq!(r.text(), chunks.concat());
    assert_eq!(r.collected().ok().as_deref(), Some(chunks.concat().as_str()));
}

#[test]
fn blank_reply_is_refused() {
    let mut r = ChunkRelay::new();
    r.push("  \n ");
    assert!(!r.keeps_partial());
    match r.collected() {
        Err(e) => assert_eq!(e.message(), "Agent error: Model returned empty response"),
        Ok(_) => panic!("a blank reply must be refused"),
    }
    assert_eq!(AgentError::Model("timeout".into()).message(), "Model error: timeout");
    assert_eq!(AgentError::Channel("closed".into()).message(), "Channel error: closed");
}

#[test]
fn registry_loading_helpers() {
    assert_eq!(default_persona_name("warren-buffett"), "warren buffett");
    assert_eq!(persona_filter("   "), None);
    assert_eq!(persona_filter(" a, ,b ,"), Some(vec!["a".to_string(), "b".to_string()]));
    assert!(!persona_dir_included("_drafts", &None));
    assert!(persona_dir_included("sun-tzu", &None));
    let only = Some(vec!["sun-tzu".to_string()]);
    assert!(persona_dir_included("sun-tzu", &only));
    assert!(!persona_dir_included("confucius", &only));
}

#[test]
fn checked_lifeline_parsing() {
    let md = "# Life\n\n## 1934-1944 · ages 0-10 · Childhood\n\ntext\n\n## 1945 · ages 11 · Youth\n";
    let phases = lifeline_phases_of(md).unwrap();
    assert_eq!(phases.len(), 2);
    assert_eq!(phases[0].start_year, Some(1934));
    assert_eq!(age_range_of("## 1934-1944 · ages 0-10 · Childhood"), Some(Some((0, Some(10)))));
    assert_eq!(age_range_of("## 1934"), Some(None));
}
