use counsel::chatflow::{chat_flows, flow_stats, sort_ascending};

fn msg(user: &str, room: &str, ms: i64) -> (String, String, i64) {
    (user.to_string(), room.to_string(), ms)
}

#[test]
fn flows_split_on_room_change_and_long_gaps() {
    let rows = vec![
        msg("u1", "r1", 0),
        msg("u1", "r1", 60_000),
        msg("u1", "r1", 120_500),
        msg("u1", "r1", 120_500 + 300_001),
        msg("u1", "r2", 1_000_000),
        msg("u2", "r2", 1_000_000),
        msg("u2", "r2", 1_300_000),
    ];
    let flows = chat_flows(&rows);
    assert_eq!(flows, vec![(120, 3), (0, 1), (0, 1), (300, 2)]);
    assert!(chat_flows(&vec![]).is_empty());
}

#[test]
fn key_is_user_bar_room() {
    // "a|b" + "c" and "a" + "b|c" share the key "a|b|c", as in the dashboard.
    let rows = vec![msg("a|b", "c", 0), msg("a", "b|c", 1_000)];
    assert_eq!(chat_flows(&rows), vec![(1, 2)]);
}

#[test]
fn flow_statistics() {
    assert_eq!(sort_ascending(&vec![5, -1, 3, 3, 0]), vec![-1, 0, 3, 3, 5]);
    assert_eq!(flow_stats(&vec![]), (0, 0, 0));
    let flows: Vec<(i64, i64)> = (1..=20).rev().map(|d| (d * 10, 1)).collect();
    // sorted 10..200: median at index 10 (110), p95 at index 19 (200)
    assert_eq!(flow_stats(&flows), (20, 110, 200));
    let flows: Vec<(i64, i64)> = vec![(7, 2), (3, 1), (9, 4)];
    // sorted 3,7,9: median index 1; p95 index floor(2.85) = 2
    assert_eq!(flow_stats(&flows), (3, 7, 9));
}
