use constellations::engine::{
    apply_space_child_event, apply_space_parent_event, message_notification, space_children,
    HierarchyRoom, MessageKind, SpaceEdgeEvent,
};
use constellations::rooms::RoomKind;
use constellations::space::SpaceHierarchy;

fn via(servers: &[&str]) -> Vec<String> {
    servers.iter().map(|s| s.to_string()).collect()
}

fn child(order: Option<&str>, suggested: bool, servers: &[&str]) -> SpaceEdgeEvent {
    SpaceEdgeEvent::Original { via: via(servers), order: order.map(|o| o.to_string()), suggested }
}

#[test]
fn child_event_with_servers_adds_the_child() {
    let mut h = SpaceHierarchy::new();
    apply_space_child_event(&mut h, "!s:x".into(), "!r:x".into(), child(Some("a"), true, &["x"]));
    assert!(h.is_in_space("!r:x", "!s:x"));
    assert!(h.is_known_space("!s:x"));
    let (p, d) = h.first_parent("!r:x").unwrap();
    assert_eq!(p, "!s:x");
    assert_eq!(d.order.as_deref(), Some("a"));
    assert!(d.suggested);
}

#[test]
fn empty_or_redacted_child_event_removes_the_child() {
    let mut h = SpaceHierarchy::new();
    apply_space_child_event(&mut h, "!s:x".into(), "!r:x".into(), child(None, false, &["x"]));
    apply_space_child_event(&mut h, "!s:x".into(), "!r:x".into(), child(None, false, &[]));
    assert!(!h.is_in_space("!r:x", "!s:x"));
    apply_space_child_event(&mut h, "!s:x".into(), "!r:x".into(), child(None, false, &["x"]));
    apply_space_child_event(&mut h, "!s:x".into(), "!r:x".into(), SpaceEdgeEvent::Redacted);
    assert!(!h.is_in_space("!r:x", "!s:x"));
    assert!(h.is_known_space("!s:x"));
}

#[test]
fn parent_event_keeps_an_existing_entry() {
    let mut h = SpaceHierarchy::new();
    apply_space_child_event(&mut h, "!s:x".into(), "!r:x".into(), child(Some("b"), true, &["x"]));
    apply_space_parent_event(&mut h, "!r:x".into(), "!s:x".into(), child(None, false, &["x"]));
    let (_, d) = h.first_parent("!r:x").unwrap();
    assert_eq!(d.order.as_deref(), Some("b"));
    apply_space_parent_event(&mut h, "!r:x".into(), "!s:x".into(), SpaceEdgeEvent::Redacted);
    assert!(h.first_parent("!r:x").is_none());
    apply_space_parent_event(&mut h, "!q:x".into(), "!t:x".into(), child(None, false, &["x"]));
    assert!(h.is_in_space("!q:x", "!t:x"));
}

#[test]
fn notification_names_sender_and_room() {
    let n = message_notification(
        Some("@me:x"),
        "@bob:x",
        Some("Bob".into()),
        Some("Lobby".into()),
        1_000_000,
        999_000,
        MessageKind::Text("hi".into()),
    )
    .unwrap();
    assert_eq!(n.summary, "Bob in Lobby");
    assert_eq!(n.body, "hi");
}

#[test]
fn notification_falls_back_to_ids_and_unknown_room() {
    let n = message_notification(None, "@bob:x", None, None, 5, 10, MessageKind::Image).unwrap();
    assert_eq!(n.summary, "@bob:x in Unknown Room");
    assert_eq!(n.body, "📷 Image");
    let bodies: Vec<String> = [MessageKind::Video, MessageKind::Audio, MessageKind::File, MessageKind::Other]
        .into_iter()
        .map(|k| message_notification(None, "@b:x", None, None, 0, 0, k).unwrap().body)
        .collect();
    assert_eq!(bodies, vec!["🎥 Video", "🎵 Audio", "📎 File", "New message"]);
}

#[test]
fn own_and_old_messages_raise_nothing() {
    assert!(message_notification(Some("@me:x"), "@me:x", None, None, 0, 0, MessageKind::Other).is_none());
    assert!(message_notification(None, "@b:x", None, None, 1_000_000, 699_999, MessageKind::Other).is_none());
    assert!(message_notification(None, "@b:x", None, None, 1_000_000, 700_000, MessageKind::Other).is_some());
    assert!(message_notification(None, "@b:x", None, None, 0, 300_001, MessageKind::Other).is_none());
}

#[test]
fn listed_space_children_take_order_from_child_events() {
    let mut h = SpaceHierarchy::new();
    let events = vec![
        ("!a:x".to_string(), child(Some("2"), false, &["x"])),
        ("!b:x".to_string(), child(Some("1"), true, &["x"])),
        ("!a:x".to_string(), child(Some("3"), true, &[])),
    ];
    let listing = vec![
        HierarchyRoom { room_id: "!a:x".into(), name: Some("A".into()), avatar_url: None, room_type: None },
        HierarchyRoom { room_id: "!c:x".into(), name: None, avatar_url: Some("mxc://x/y".into()), room_type: Some(RoomKind::Space) },
    ];
    let rooms = space_children("!s:x", &events, Some(listing), &mut h);
    assert_eq!(rooms.len(), 2);
    assert_eq!(rooms[0].id, "!a:x");
    assert_eq!(rooms[0].name.as_deref(), Some("A"));
    assert_eq!(rooms[0].order.as_deref(), Some("2"));
    assert!(!rooms[0].suggested);
    assert!(!rooms[0].is_space);
    assert_eq!(rooms[0].parent_space_id.as_deref(), Some("!s:x"));
    assert_eq!(rooms[1].id, "!c:x");
    assert!(rooms[1].is_space);
    assert_eq!(rooms[1].order, None);
    assert_eq!(rooms[1].avatar_url.as_deref(), Some("mxc://x/y"));
    assert!(h.is_in_space("!c:x", "!s:x"));
    assert!(h.is_in_space("!a:x", "!s:x"));
    assert!(!h.is_in_space("!b:x", "!s:x"));
}

#[test]
fn without_a_listing_the_child_events_give_the_children() {
    let mut h = SpaceHierarchy::new();
    let events = vec![
        ("!a:x".to_string(), child(Some("2"), false, &["x"])),
        ("!b:x".to_string(), child(None, false, &[])),
        ("!c:x".to_string(), child(Some("1"), true, &["x"])),
        ("!a:x".to_string(), child(Some("5"), true, &["y"])),
    ];
    let rooms = space_children("!s:x", &events, None, &mut h);
    let ids: Vec<&str> = rooms.iter().map(|r| r.id.as_str()).collect();
    assert_eq!(ids, vec!["!a:x", "!c:x"]);
    assert_eq!(rooms[0].order.as_deref(), Some("5"));
    assert!(rooms[0].suggested);
    assert_eq!(rooms[0].name, None);
    assert_eq!(rooms[1].order.as_deref(), Some("1"));
    assert!(!h.is_in_space("!b:x", "!s:x"));
    assert!(h.is_in_space("!c:x", "!s:x"));
}
