use counsel::chat::{
    build_chat_messages, chat_event_payload_allowed, fallback_opening, pick_responders,
    room_preview, room_title, validate_room_id, validate_user_id, ChatTurn, EventPayload, RoomMeta,
};
use counsel::model::MessageRole;
use counsel::wisdom::{Cadence, VoiceTexture, WisdomPersona};

fn keys(ks: &[&str]) -> EventPayload {
    EventPayload::Object(ks.iter().map(|k| k.to_string()).collect())
}

#[test]
fn allows_whitelisted_room_created() {
    assert!(chat_event_payload_allowed("chat_room_created", &keys(&["room_id", "persona_count", "persona_slugs", "has_title"])));
}

#[test]
fn rejects_message_text_field() {
    assert!(!chat_event_payload_allowed("chat_message_sent", &keys(&["room_id", "char_count", "text"])));
}

#[test]
fn rejects_title_field() {
    assert!(!chat_event_payload_allowed("chat_room_created", &keys(&["room_id", "title"])));
}

#[test]
fn rejects_persona_reply_text() {
    assert!(!chat_event_payload_allowed("chat_persona_replied", &keys(&["room_id", "persona_slug", "reply"])));
}

#[test]
fn allows_optional_mention_slug() {
    assert!(chat_event_payload_allowed(
        "chat_message_sent",
        &keys(&["room_id", "msg_index", "char_count", "has_mention", "mention_persona_slug"]),
    ));
}

#[test]
fn rejects_unknown_chat_event_type() {
    assert!(!chat_event_payload_allowed("chat_secret_exfil", &keys(&["room_id"])));
}

#[test]
fn passes_through_non_chat_events() {
    assert!(chat_event_payload_allowed("step_entered", &keys(&["step", "session_id"])));
}

#[test]
fn null_payload_allowed() {
    assert!(chat_event_payload_allowed("chat_session_heartbeat", &EventPayload::Null));
}

#[test]
fn scalar_payload_rejected_for_chat_events() {
    assert!(!chat_event_payload_allowed("chat_session_heartbeat", &EventPayload::Other));
    assert!(chat_event_payload_allowed("session_init", &EventPayload::Other));
}

#[test]
fn identifiers() {
    assert!(validate_room_id("abc-DEF_123"));
    assert!(!validate_room_id(""));
    assert!(!validate_room_id("../x"));
    assert!(!validate_room_id(&"a".repeat(64)));
    assert!(validate_room_id(&"a".repeat(63)));
    assert!(validate_user_id(&"a".repeat(79)));
    assert!(!validate_user_id("a b"));
}

#[test]
fn openings_and_titles() {
    assert_eq!(fallback_opening("毛泽东、PG"), "欢迎，今天群里有 毛泽东、PG。最近在想什么？");
    assert_eq!(room_title("   "), "新群聊");
    assert_eq!(room_title("  标题  "), "标题");
    assert_eq!(room_title(&"字".repeat(70)).chars().count(), 60);
    let t = ChatTurn { ts: "t".into(), role: "user".into(), slug: None, name: None, content: "内容".repeat(30) };
    assert_eq!(room_preview(&t), format!("案主: {}", "内容".repeat(20)));
}

fn persona(slug: &str, name: &str) -> WisdomPersona {
    WisdomPersona {
        slug: slug.into(),
        name: name.into(),
        title: "T".into(),
        worldview: String::new(),
        philosophy: String::new(),
        values: String::new(),
        methodology: String::new(),
        situations: vec![],
        voice: VoiceTexture::default(),
        cadence: Cadence::Unset,
        lifeline_md: None,
        helping_signature_md: None,
        consistency_audit_md: None,
        lifeline_phases: vec![],
        legacy_prompt: Some(format!("You are {}.", name)),
    }
}

#[test]
fn mention_picks_one_responder() {
    let room = vec![persona("mao-zedong", "毛泽东"), persona("paul-graham", "Paul Graham")];
    let one = pick_responders("  @Paul Graham what now?", &room);
    assert_eq!(one.len(), 1);
    assert_eq!(one[0].slug, "paul-graham");
    let by_slug = pick_responders("@mao-zedong 你好", &room);
    assert_eq!(by_slug[0].slug, "mao-zedong");
    assert_eq!(pick_responders("@nobody hi", &room).len(), 2);
    assert_eq!(pick_responders("hello all", &room).len(), 2);
}

#[test]
fn chat_messages_label_history() {
    let room = vec![persona("mao-zedong", "毛泽东"), persona("paul-graham", "Paul Graham")];
    let meta = RoomMeta {
        room_id: "r".into(),
        created_by: "u".into(),
        created_at: "t".into(),
        title: "新群聊".into(),
        persona_slugs: vec!["mao-zedong".into(), "paul-graham".into()],
    };
    let history = vec![
        ChatTurn { ts: "1".into(), role: "facilitator".into(), slug: None, name: Some("主持人".into()), content: "开场".into() },
        ChatTurn { ts: "2".into(), role: "user".into(), slug: None, name: None, content: "问题".into() },
        ChatTurn { ts: "3".into(), role: "persona".into(), slug: Some("paul-graham".into()), name: Some("Paul Graham".into()), content: "PG says".into() },
        ChatTurn { ts: "4".into(), role: "persona".into(), slug: Some("mao-zedong".into()), name: Some("毛泽东".into()), content: "我说".into() },
        ChatTurn { ts: "5".into(), role: "system".into(), slug: None, name: None, content: "dropped".into() },
    ];
    let ms = build_chat_messages(&room[0], &room, &meta, &history);
    assert_eq!(ms.len(), 5);
    assert!(matches!(ms[0].role, MessageRole::System));
    assert!(ms[0].content.starts_with("You are 毛泽东."));
    assert!(ms[0].content.contains("你正和案主和 Paul Graham 一起在一个轻量微信群里"));
    assert_eq!(ms[1].content, "[主持人]: 开场");
    assert_eq!(ms[2].content, "[案主]: 问题");
    assert_eq!(ms[3].content, "[Paul Graham]: PG says");
    assert!(matches!(ms[4].role, MessageRole::Assistant));
    assert_eq!(ms[4].content, "我说");
}
