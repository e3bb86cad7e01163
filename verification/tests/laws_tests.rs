use constellations::diff::{ApplyVectorDiffExt, VectorDiff};
use constellations::preview::{parse_plain_text, PreviewEvent};
use constellations::rooms::{sort_room_indices, RoomData};
use constellations::session::{AuthFlow, SessionState};
use constellations::matrix::SyncStatus;
use constellations::space::SpaceHierarchy;
use constellations::summary::clean_last_message;
use constellations::text::{contains_ignore_ascii_case, fuzzy_match_ignore_case};
use constellations::urls::redact_url;

fn shown_text(events: &[PreviewEvent]) -> String {
    let mut s = String::new();
    for e in events {
        if let PreviewEvent::Text(t) = e {
            s.push_str(t);
        }
    }
    s
}

#[test]
fn plain_text_preview_is_lossless() {
    for text in [
        "see https://example.org/a?b=c, then http://x.y.",
        "https://only.example",
        "no links at all",
        "",
        "(http://a.b) and (https://c.d/e)!",
    ] {
        let events = parse_plain_text(text);
        assert_eq!(shown_text(&events), text);
    }
}

#[test]
fn plain_text_links_show_their_target() {
    let events = parse_plain_text("go to https://matrix.org/docs. now");
    let i = events.iter().position(|e| matches!(e, PreviewEvent::StartLink(_))).unwrap();
    match (&events[i], &events[i + 1], &events[i + 2]) {
        (PreviewEvent::StartLink(url), PreviewEvent::Text(t), PreviewEvent::EndLink) => {
            assert_eq!(url, "https://matrix.org/docs");
            assert_eq!(t, url);
        }
        _ => panic!("link not shown as its address"),
    }
}

#[test]
fn being_in_a_space_carries_over() {
    let mut h = SpaceHierarchy::new();
    h.add_child("!outer:x".to_string(), "!inner:x".to_string(), None, false);
    h.add_child("!inner:x".to_string(), "!room:x".to_string(), None, false);
    assert!(h.is_in_space("!room:x", "!inner:x"));
    assert!(h.is_in_space("!inner:x", "!outer:x"));
    assert!(h.is_in_space("!room:x", "!outer:x"));
    assert!(!h.is_in_space("!outer:x", "!room:x"));
}

#[test]
fn a_listed_child_is_a_descendant() {
    let mut h = SpaceHierarchy::new();
    h.add_child("!s:x".to_string(), "!c:x".to_string(), Some("a".to_string()), false);
    assert!(h.is_in_space("!c:x", "!s:x"));
    assert!(h.get_descendants_strs("!s:x").contains(&"!c:x".to_string()));
}

#[test]
fn toggling_the_login_mode_twice_comes_back() {
    let mut s = SessionState {
        user_id: None,
        sync_status: SyncStatus::Disconnected,
        error: Some("bad password".to_string()),
        login_homeserver: "https://matrix.org".to_string(),
        login_username: "alice".to_string(),
        login_password: String::new(),
        auth_flow: AuthFlow::Idle,
        is_registering_mode: false,
        is_registering: false,
        is_initializing: false,
        is_loading_more: false,
    };
    s.handle_toggle_login_mode();
    s.handle_toggle_login_mode();
    assert!(!s.is_registering_mode);
    assert_eq!(s.error, None);
    assert_eq!(s.login_username, "alice");
}

#[test]
fn list_changes_are_undone() {
    let mut v = vec![1, 2, 3];
    v.apply_diff(VectorDiff::PushBack { value: 9 });
    v.apply_diff(VectorDiff::PopBack);
    assert_eq!(v, vec![1, 2, 3]);
    v.apply_diff(VectorDiff::PushFront { value: 0 });
    v.apply_diff(VectorDiff::PopFront);
    assert_eq!(v, vec![1, 2, 3]);
    v.apply_diff(VectorDiff::Insert { index: 1, value: 7 });
    assert_eq!(v, vec![1, 7, 2, 3]);
    v.apply_diff(VectorDiff::Remove { index: 1 });
    assert_eq!(v, vec![1, 2, 3]);
    v.apply_diff(VectorDiff::Replace { index: 2, value: 3 });
    assert_eq!(v, vec![1, 2, 3]);

    let mut w = vec![5, 6];
    w.apply_diff(VectorDiff::Clear);
    w.apply_diff(VectorDiff::Append { values: vec![8, 9] });
    let mut u = vec![1];
    u.apply_diff(VectorDiff::Reset { values: vec![8, 9] });
    assert_eq!(w, u);
}

#[test]
fn out_of_range_changes_do_nothing() {
    let mut v: Vec<i32> = vec![1, 2];
    v.apply_diff(VectorDiff::Remove { index: 5 });
    v.apply_diff(VectorDiff::Replace { index: 2, value: 0 });
    v.apply_diff(VectorDiff::Truncate { length: 10 });
    assert_eq!(v, vec![1, 2]);
    v.apply_diff(VectorDiff::Insert { index: 9, value: 3 });
    assert_eq!(v, vec![1, 2, 3]);
    let mut e: Vec<i32> = Vec::new();
    e.apply_diff(VectorDiff::PopBack);
    e.apply_diff(VectorDiff::PopFront);
    assert!(e.is_empty());
}

fn named(id: &str, order: Option<&str>) -> RoomData {
    RoomData {
        id: id.to_string(),
        name: None,
        last_message: None,
        unread_count: 0,
        unread_count_str: None,
        avatar_url: None,
        room_type: None,
        is_space: false,
        parent_space_id: None,
        join_rule: None,
        allowed_spaces: Vec::new(),
        order: order.map(|o| o.to_string()),
        suggested: false,
    }
}

#[test]
fn sorting_keeps_every_room_once() {
    let rooms = vec![named("!c:x", Some("b")), named("!a:x", None), named("!b:x", Some("a"))];
    for by_order in [false, true] {
        let mut sorted = sort_room_indices(&rooms, vec![0, 1, 2], by_order);
        sorted.sort();
        assert_eq!(sorted, vec![0, 1, 2]);
    }
    assert_eq!(sort_room_indices(&rooms, vec![0, 1, 2], false), vec![1, 2, 0]);
    assert_eq!(sort_room_indices(&rooms, vec![0, 1, 2], true), vec![2, 0, 1]);
}

#[test]
fn fuzzy_match_survives_a_longer_haystack_and_a_shorter_query() {
    let (h, q) = ("General Chat", "gct");
    assert!(fuzzy_match_ignore_case(h, q));
    assert!(fuzzy_match_ignore_case(&format!("{h} room"), q));
    assert!(fuzzy_match_ignore_case(&format!("my {h}"), q));
    assert!(fuzzy_match_ignore_case(h, "gt"));
    assert!(fuzzy_match_ignore_case(h, ""));
    assert!(!fuzzy_match_ignore_case(h, "gctz"));
}

#[test]
fn cleaning_a_last_message_twice_changes_nothing() {
    for text in ["  hello\n world", "> quoted\n\n  answer  ", "", "\n\n", "one line", "   \n  second\n"] {
        let once = clean_last_message(text);
        assert_eq!(clean_last_message(once), once);
    }
}

#[test]
fn an_ascii_substring_is_a_fuzzy_match() {
    for (h, q) in [("Général Chat", "CHAT"), ("ÄPFEL und Birnen", "und b"), ("x", "X"), ("abc", "")] {
        assert!(contains_ignore_ascii_case(h, q, None));
        assert!(fuzzy_match_ignore_case(h, q));
    }
    assert!(!contains_ignore_ascii_case("abc", "ac", None));
    assert!(fuzzy_match_ignore_case("abc", "ac"));
}

#[test]
fn secret_values_do_not_reach_the_redacted_url() {
    let a = redact_url("https://e.com/cb?code=one&x=1&state=s1#f");
    let b = redact_url("https://e.com/cb?code=two&x=1&state=s2#f");
    assert_eq!(a, b);
    assert!(!a.unwrap().contains("one"));
}
