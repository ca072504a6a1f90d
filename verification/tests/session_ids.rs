use node_librespot::session_ids::{next_session_id, SessionCounter};

#[test]
fn ids_count_up_across_prefixes() {
    let mut counter = SessionCounter::new();
    assert_eq!(next_session_id(&mut counter, "stream"), "stream-1");
    assert_eq!(next_session_id(&mut counter, "download"), "download-2");
    assert_eq!(next_session_id(&mut counter, "connect"), "connect-3");
}

#[test]
fn ids_are_distinct() {
    let mut counter = SessionCounter::new();
    let mut seen: Vec<String> = Vec::new();
    for i in 0..300 {
        let prefix = if i % 2 == 0 { "stream" } else { "stream-1" };
        let id = next_session_id(&mut counter, prefix);
        assert!(!seen.contains(&id), "{}", id);
        seen.push(id);
    }
}
