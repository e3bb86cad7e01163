use constellations::diff::VectorDiff;
use constellations::rooms::{window_title, ChildrenFetched, RoomData, RoomListState, RoomTextMap, SpaceLookup};
use constellations::space::SpaceHierarchy;

fn room(id: &str, name: Option<&str>, is_space: bool) -> RoomData {
    RoomData {
        id: id.to_string(),
        name: name.map(|n| n.to_string()),
        last_message: None,
        unread_count: 0,
        unread_count_str: None,
        avatar_url: None,
        room_type: None,
        is_space,
        parent_space_id: None,
        join_rule: None,
        allowed_spaces: Vec::new(),
        order: None,
        suggested: false,
    }
}

fn ordered(id: &str, order: Option<&str>) -> RoomData {
    let mut r = room(id, None, false);
    r.order = order.map(|o| o.to_string());
    r
}

fn create_test_state() -> RoomListState {
    RoomListState {
        room_list: Vec::new(),
        filtered_room_list: Vec::new(),
        other_rooms: Vec::new(),
        filtered_other_rooms: Vec::new(),
        search_query: String::new(),
        selected_space: None,
        joined_room_ids: Vec::new(),
        room_name_cache: RoomTextMap::new(),
    }
}

#[test]
fn test_update_filtered_rooms_no_search_no_space() {
    let mut app = create_test_state();
    app.room_list = vec![
        room("!room1:matrix.org", Some("Room 1"), false),
        room("!space1:matrix.org", Some("Space 1"), true),
    ];
    app.update_filtered_rooms(&SpaceLookup::NoEngine);
    assert_eq!(app.filtered_room_list.len(), 1);
    assert_eq!(app.room_list[app.filtered_room_list[0]].id, "!room1:matrix.org");
}

#[test]
fn test_update_filtered_rooms_search_by_name() {
    let mut app = create_test_state();
    app.room_list = vec![
        room("!room1:matrix.org", Some("Alpha Room"), false),
        room("!room2:matrix.org", Some("Beta Room"), false),
    ];
    app.search_query = "alpha".to_string();
    app.update_filtered_rooms(&SpaceLookup::NoEngine);
    assert_eq!(app.filtered_room_list.len(), 1);
    assert_eq!(app.room_list[app.filtered_room_list[0]].id, "!room1:matrix.org");
}

#[test]
fn test_update_filtered_rooms_search_by_id() {
    let mut app = create_test_state();
    app.room_list = vec![
        room("!room1:matrix.org", Some("Alpha Room"), false),
        room("!room2:matrix.org", Some("Beta Room"), false),
    ];
    app.search_query = "!ROOM2".to_string();
    app.update_filtered_rooms(&SpaceLookup::NoEngine);
    assert_eq!(app.filtered_room_list.len(), 1);
    assert_eq!(app.room_list[app.filtered_room_list[0]].id, "!room2:matrix.org");
}

#[test]
fn test_update_filtered_rooms_search_no_match() {
    let mut app = create_test_state();
    app.room_list = vec![room("!room1:matrix.org", Some("Alpha Room"), false)];
    app.search_query = "gamma".to_string();
    app.update_filtered_rooms(&SpaceLookup::NoEngine);
    assert_eq!(app.filtered_room_list.len(), 0);
}

#[test]
fn test_update_filtered_rooms_with_selected_space_no_matrix() {
    let mut app = create_test_state();
    app.room_list = vec![room("!room1:matrix.org", Some("Alpha Room"), false)];
    app.selected_space = Some("!space1:matrix.org".to_string());
    app.update_filtered_rooms(&SpaceLookup::NoEngine);
    assert_eq!(app.filtered_room_list.len(), 0);
}

#[test]
fn test_room_name_cache() {
    let mut app = create_test_state();
    let room_id = "!room1:matrix.org";
    assert_eq!(app.get_room_name(room_id), None);
    app.room_name_cache.insert(room_id.to_string(), "Cached Room Name".to_string());
    assert_eq!(app.get_room_name(room_id), Some("Cached Room Name"));
    app.room_list = vec![room(room_id, Some("Active Room Name"), false)];
    assert_eq!(app.get_room_name(room_id), Some("Active Room Name"));
}

#[test]
fn rooms_are_listed_by_id_without_a_space() {
    let mut app = create_test_state();
    app.room_list = vec![room("!c", None, false), room("!a", None, false), room("!b", None, false)];
    app.update_filtered_rooms(&SpaceLookup::NoEngine);
    assert_eq!(app.filtered_room_list, vec![1, 2, 0]);
}

#[test]
fn space_rooms_are_listed_by_order_then_id() {
    let mut h = SpaceHierarchy::new();
    for c in ["!a", "!b", "!c", "!d"] {
        h.add_child("!s".to_string(), c.to_string(), None, false);
    }
    let mut app = create_test_state();
    app.room_list = vec![ordered("!d", None), ordered("!c", Some("b")), ordered("!b", Some("a")), ordered("!a", None), ordered("!z", Some("0"))];
    app.selected_space = Some("!s".to_string());
    app.update_filtered_rooms(&SpaceLookup::Ready(&h));
    assert_eq!(app.filtered_room_list, vec![2, 1, 3, 0]);
}

#[test]
fn busy_hierarchy_keeps_everything() {
    let h = SpaceHierarchy::new();
    let _ = h;
    let mut app = create_test_state();
    app.room_list = vec![room("!a", None, false)];
    app.filtered_room_list = vec![0];
    app.other_rooms = vec![room("!o", None, false)];
    app.filtered_other_rooms = vec![0];
    app.selected_space = Some("!s".to_string());
    app.update_filtered_rooms(&SpaceLookup::Busy);
    assert_eq!(app.filtered_room_list, vec![0]);
    assert_eq!(app.other_rooms.len(), 1);
    assert_eq!(app.filtered_other_rooms, vec![0]);
}

#[test]
fn joined_other_rooms_are_dropped() {
    let mut app = create_test_state();
    app.other_rooms = vec![room("!o1", Some("One"), false), room("!o2", Some("Two"), false)];
    app.joined_room_ids = vec!["!o1".to_string()];
    app.selected_space = Some("!s".to_string());
    app.search_query = "two".to_string();
    app.update_filtered_rooms(&SpaceLookup::NoEngine);
    assert_eq!(app.other_rooms.len(), 1);
    assert_eq!(app.other_rooms[0].id, "!o2");
    assert_eq!(app.filtered_other_rooms, vec![0]);
}

#[test]
fn room_diff_tracks_joined_ids() {
    let mut app = create_test_state();
    app.handle_room_diff(VectorDiff::PushBack { value: room("!a", None, false) }, &SpaceLookup::NoEngine);
    app.handle_room_diff(VectorDiff::PushBack { value: room("!b", None, false) }, &SpaceLookup::NoEngine);
    assert_eq!(app.joined_room_ids.len(), 2);
    app.handle_room_diff(VectorDiff::Remove { index: 0 }, &SpaceLookup::NoEngine);
    assert_eq!(app.joined_room_ids, vec!["!b".to_string()]);
    assert_eq!(app.room_list.len(), 1);
    assert_eq!(app.filtered_room_list, vec![0]);
    app.handle_room_diff(VectorDiff::Clear, &SpaceLookup::NoEngine);
    assert!(app.joined_room_ids.is_empty());
    assert!(app.room_list.is_empty());
}

#[test]
fn room_diff_truncate_forgets_dropped_rooms() {
    let mut app = create_test_state();
    app.handle_room_diff(
        VectorDiff::Append { values: vec![room("!a", None, false), room("!b", None, false), room("!c", None, false)] },
        &SpaceLookup::NoEngine,
    );
    app.handle_room_diff(VectorDiff::Truncate { length: 1 }, &SpaceLookup::NoEngine);
    assert_eq!(app.joined_room_ids, vec!["!a".to_string()]);
    assert_eq!(app.room_list.len(), 1);
}

#[test]
fn space_children_for_other_space_are_ignored() {
    let mut app = create_test_state();
    app.selected_space = Some("!s".to_string());
    let r = app.handle_space_children_fetched("!t", Ok(vec![room("!x", None, false)]), &SpaceLookup::NoEngine, true, &Vec::new());
    assert!(matches!(r, ChildrenFetched::Ignored));
    assert!(app.other_rooms.is_empty());
}

#[test]
fn space_children_error_is_reported() {
    let mut app = create_test_state();
    app.selected_space = Some("!s".to_string());
    let r = app.handle_space_children_fetched("!s", Err("boom".to_string()), &SpaceLookup::NoEngine, true, &Vec::new());
    match r {
        ChildrenFetched::Failed(m) => assert_eq!(m, "Failed to fetch space children: boom"),
        _ => panic!("expected a failure"),
    }
}

#[test]
fn space_children_become_other_rooms() {
    let mut app = create_test_state();
    app.selected_space = Some("!s".to_string());
    app.joined_room_ids = vec!["!j".to_string()];
    let mut with_avatar = ordered("!b", Some("1"));
    with_avatar.avatar_url = Some("mxc://x/1".to_string());
    let mut cached = ordered("!c", None);
    cached.avatar_url = Some("mxc://x/2".to_string());
    let children = vec![cached, room("!j", None, false), room("!sp", None, true), with_avatar];
    let r = app.handle_space_children_fetched("!s", Ok(children), &SpaceLookup::NoEngine, true, &vec!["mxc://x/2".to_string()]);
    match r {
        ChildrenFetched::Loaded(urls) => assert_eq!(urls, vec!["mxc://x/1".to_string()]),
        _ => panic!("expected the children to be taken in"),
    }
    let ids: Vec<&str> = app.other_rooms.iter().map(|r| r.id.as_str()).collect();
    assert_eq!(ids, vec!["!b", "!c"]);
}

#[test]
fn selecting_a_space_asks_for_its_children() {
    let mut app = create_test_state();
    app.other_rooms = vec![room("!o", None, false)];
    let h = SpaceHierarchy::new();
    assert!(app.select_space(Some("!s".to_string()), &SpaceLookup::Ready(&h)));
    assert!(app.other_rooms.is_empty());
    assert!(!app.select_space(Some("!s".to_string()), &SpaceLookup::NoEngine));
    assert!(!app.select_space(None, &SpaceLookup::Ready(&h)));
    assert_eq!(app.selected_space, None);
}

#[test]
fn title_is_selected_room_name() {
    let rooms = vec![room("!a", Some("Alpha"), false), room("!b", None, false)];
    assert_eq!(window_title(&rooms, &Some("!a".to_string())), "Alpha");
    assert_eq!(window_title(&rooms, &Some("!b".to_string())), "Constellations - Matrix Client");
    assert_eq!(window_title(&rooms, &None), "Constellations - Matrix Client");
}

#[test]
fn cache_keeps_latest_name() {
    let mut c = RoomTextMap::new();
    c.insert("!a".to_string(), "one".to_string());
    c.insert("!a".to_string(), "two".to_string());
    c.insert("!b".to_string(), "three".to_string());
    assert_eq!(c.get("!a"), Some("two"));
    assert_eq!(c.get("!b"), Some("three"));
    assert_eq!(c.get("!c"), None);
}

#[test]
fn title_falls_back_to_the_cached_name() {
    let mut app = create_test_state();
    app.room_list = vec![room("!a", Some("Alpha"), false), room("!b", None, false)];
    app.room_name_cache.insert("!b".to_string(), "Cached B".to_string());
    app.room_name_cache.insert("!c".to_string(), "Cached C".to_string());
    assert_eq!(app.window_title(&Some("!a".to_string())), "Alpha");
    assert_eq!(app.window_title(&Some("!b".to_string())), "Cached B");
    assert_eq!(app.window_title(&Some("!c".to_string())), "Cached C");
    assert_eq!(app.window_title(&Some("!d".to_string())), "Constellations - Matrix Client");
    assert_eq!(app.window_title(&None), "Constellations - Matrix Client");
}
