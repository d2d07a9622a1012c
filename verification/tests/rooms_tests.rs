use counsel::chat::{create_room_check, message_text, room_ids_error, sort_rooms, RoomSummary};
use counsel::wisdom::PersonaRegistry;

fn room(id: &str, created_at: &str) -> RoomSummary {
    RoomSummary {
        room_id: id.to_string(),
        title: "t".to_string(),
        created_at: created_at.to_string(),
        created_by: "u".to_string(),
        persona_slugs: vec![],
        turn_count: 0,
        last_preview: None,
    }
}

#[test]
fn create_room_refusals() {
    let reg = PersonaRegistry::test_registry(2);
    assert_eq!(create_room_check("bad/id", &[], &reg).err(), Some("invalid user id"));
    assert_eq!(create_room_check("u1", &[], &reg).err(), Some("至少选一个幕僚"));
    assert_eq!(
        create_room_check("u1", &["ghost".to_string()], &reg).err(),
        Some("没有合法的幕僚 slug")
    );
    let slug = reg.all()[1].slug.clone();
    let ok = create_room_check("u1", &[slug.clone()], &reg).ok().unwrap();
    assert_eq!(ok.len(), 1);
    assert_eq!(ok[0].slug, slug);
}

#[test]
fn message_ids_and_text() {
    assert_eq!(room_ids_error("../x", "r1"), Some("invalid user id"));
    assert_eq!(room_ids_error("u1", "r/1"), Some("invalid room id"));
    assert_eq!(room_ids_error("u1", "r-1"), None);
    assert_eq!(message_text("  hi  ").as_deref(), Some("hi"));
    assert_eq!(message_text(" \n "), None);
}

#[test]
fn rooms_listed_newest_first() {
    let rooms = vec![
        room("a", "2026-01-02T00:00:00Z"),
        room("b", "2026-03-01T00:00:00Z"),
        room("c", "2026-01-02T00:00:00Z"),
        room("d", "2025-12-31T00:00:00Z"),
    ];
    let ids: Vec<String> = sort_rooms(rooms).into_iter().map(|r| r.room_id).collect();
    assert_eq!(ids, vec!["b", "a", "c", "d"]);
    assert!(sort_rooms(vec![]).is_empty());
}
