use constellations::summary::{sender_actions, SenderAction};
use constellations::rooms::{JoinRule, RoomKind};
use constellations::settings::config::Config;
use constellations::space::SpaceHierarchy;
use constellations::summary::{
    clean_last_message, is_blank_str, preview_last_message, reply_snippet, room_data_from_report,
    thread_reply_count, trim_str, unread_count_label, RoomReport,
};
use constellations::ui::{
    create_menu, creation_form, user_menu, CreateRequest, MenuAct, MenuMessage, QrCodeWidget,
    SettingsPanel,
};

fn report(id: &str) -> RoomReport {
    RoomReport {
        id: id.to_string(),
        name: None,
        cached_display_name: None,
        notification_count: 0,
        avatar_url: None,
        latest_message_body: None,
        room_type: None,
        join_rule: None,
    }
}

#[test]
fn clean_last_message_skips_the_quoted_reply() {
    assert_eq!(clean_last_message("> quoted line\n> more\n\n  hello there  \nsecond"), "hello there");
    assert_eq!(clean_last_message("first\nsecond"), "first");
    assert_eq!(clean_last_message("  padded  "), "padded");
    assert_eq!(clean_last_message("> only a quote"), "> only a quote");
    assert_eq!(clean_last_message(""), "");
}

#[test]
fn preview_cuts_long_messages() {
    assert_eq!(preview_last_message("short"), "short");
    let long = "abcdefghijklmnopqrstuvwxyz0123456789";
    assert_eq!(preview_last_message(long), "abcdefghijklmnopqrstuvwxyz...");
    let thirty = "012345678901234567890123456789";
    assert_eq!(preview_last_message(thirty), thirty);
}

#[test]
fn unread_label_shows_only_when_unread() {
    assert_eq!(unread_count_label(0), None);
    assert_eq!(unread_count_label(7), Some("(7)".to_string()));
    assert_eq!(unread_count_label(1234), Some("(1234)".to_string()));
}

#[test]
fn trimming_and_blank_text() {
    assert_eq!(trim_str(" \t a b \n"), "a b");
    assert!(is_blank_str(" \t\n"));
    assert!(is_blank_str(""));
    assert!(!is_blank_str(" x "));
}

#[test]
fn report_of_a_space_records_it() {
    let mut h = SpaceHierarchy::new();
    let mut r = report("!space:x");
    r.room_type = Some(RoomKind::Space);
    r.name = Some("Space".to_string());
    r.notification_count = 3;
    let data = room_data_from_report(r, &mut h);
    assert!(data.is_space);
    assert_eq!(data.name, Some("Space".to_string()));
    assert_eq!(data.unread_count, 3);
    assert_eq!(data.unread_count_str, Some("(3)".to_string()));
    assert!(h.is_known_space("!space:x"));
    assert_eq!(data.parent_space_id, None);
}

#[test]
fn report_of_a_child_takes_its_place_under_the_space() {
    let mut h = SpaceHierarchy::new();
    h.add_child("!s:x".to_string(), "!r:x".to_string(), Some("b".to_string()), true);
    let mut r = report("!r:x");
    r.cached_display_name = Some("Alice and Bob".to_string());
    r.latest_message_body = Some("hello".to_string());
    r.join_rule = Some(JoinRule::Restricted(vec!["!s:x".to_string()]));
    let data = room_data_from_report(r, &mut h);
    assert!(!data.is_space);
    assert_eq!(data.name, Some("Alice and Bob".to_string()));
    assert_eq!(data.last_message, Some("hello".to_string()));
    assert_eq!(data.parent_space_id, Some("!s:x".to_string()));
    assert_eq!(data.order, Some("b".to_string()));
    assert!(data.suggested);
    assert_eq!(data.allowed_spaces, vec!["!s:x".to_string()]);
    assert!(!h.is_known_space("!r:x"));
}

#[test]
fn menu_entries_ask_for_their_panel() {
    assert_eq!(MenuAct::AppSettings.message(), MenuMessage::OpenSettings(SettingsPanel::App));
    assert_eq!(MenuAct::UserSettings.message(), MenuMessage::OpenSettings(SettingsPanel::User));
    assert_eq!(MenuAct::SpaceSettings.message(), MenuMessage::OpenSettings(SettingsPanel::Space));
    assert_eq!(MenuAct::Logout.message(), MenuMessage::Logout);
    assert_eq!(MenuAct::CreateRoom.message(), MenuMessage::ToggleCreateRoom);
    assert_eq!(MenuAct::CreateSpace.message(), MenuMessage::ToggleCreateSpace);
    assert_eq!(MenuAct::SpaceInvite.message(), MenuMessage::ToggleInviteToSpace);
}

#[test]
fn qr_grid_has_a_quiet_zone() {
    let widget = QrCodeWidget::new("https://example.com".to_string());
    let grid = widget.grid().expect("encodable");
    // A 19-byte URL needs a version 2 code: 25 modules, plus 2 on each side.
    assert_eq!(grid.side_cells, 29);
    // The finder pattern's corner is dark; the quiet zone is not.
    assert!(grid.dark.contains(&(2, 2)));
    assert!(!grid.dark.iter().any(|&(x, y)| x < 2 || y < 2 || x >= 27 || y >= 27));
    // Cells come row by row.
    assert!(grid.dark.windows(2).all(|w| (w[0].1, w[0].0) < (w[1].1, w[1].0)));
}

#[test]
fn config_defaults_when_nothing_is_stored() {
    let c = Config::from_stored(None);
    assert_eq!(c, Config::default());
    assert!(c.media_previews_display_policy);
    assert!(!c.compact_mode);
    let stored = Config { compact_mode: true, ..Config::default() };
    assert_eq!(Config::from_stored(Some(stored)), stored);
}

#[test]
fn reply_line_names_the_sender_and_cuts_long_bodies() {
    assert_eq!(reply_snippet("@a:x", "hi"), "@a:x: hi");
    assert_eq!(reply_snippet("", ""), "Replying...");
    assert_eq!(reply_snippet("@a:x", ""), "@a:x: Replying...");
    let long = "a".repeat(60);
    assert_eq!(reply_snippet("", &long), format!("{}...", "a".repeat(47)));
    let exactly_fifty = "b".repeat(50);
    assert_eq!(reply_snippet("", &exactly_fifty), exactly_fifty);
    let wide = "é".repeat(26);
    assert_eq!(reply_snippet("", &wide), wide);
    let wide_long = "é".repeat(51);
    assert_eq!(reply_snippet("", &wide_long), format!("{}...", "é".repeat(47)));
}

#[test]
fn thread_count_shows_the_larger_count() {
    assert_eq!(thread_reply_count(3, 5, false, false), Some(5));
    assert_eq!(thread_reply_count(4, 1, false, false), Some(4));
    assert_eq!(thread_reply_count(0, 0, false, false), None);
    assert_eq!(thread_reply_count(2, 0, true, false), None);
    assert_eq!(thread_reply_count(2, 0, false, true), None);
}

#[test]
fn header_menus() {
    assert!(user_menu(false).is_empty());
    assert_eq!(user_menu(true), vec![MenuAct::AppSettings, MenuAct::UserSettings, MenuAct::Logout]);
    assert_eq!(create_menu(), vec![MenuAct::CreateRoom, MenuAct::CreateSpace]);
}

#[test]
fn creation_form_needs_a_name() {
    assert!(creation_form(false, false, "x").is_none());
    let f = creation_form(true, false, "  ").unwrap();
    assert!(!f.for_space);
    assert_eq!(f.submit, None);
    assert_eq!(f.cancel, MenuMessage::ToggleCreateRoom);
    let f = creation_form(false, true, "Team").unwrap();
    assert!(f.for_space);
    assert_eq!(f.submit, Some(CreateRequest::Space("Team".to_string())));
    assert_eq!(f.cancel, MenuMessage::ToggleCreateSpace);
    let f = creation_form(true, true, "General").unwrap();
    assert_eq!(f.submit, Some(CreateRequest::Room("General".to_string())));
}

#[test]
fn own_messages_offer_edit_and_delete() {
    let ignored = vec!["@troll:x".to_string()];
    assert_eq!(sender_actions(true, &ignored, &"@me:x".to_string()), vec![SenderAction::Edit, SenderAction::Delete]);
    assert_eq!(sender_actions(false, &ignored, &"@troll:x".to_string()), vec![SenderAction::Unignore]);
    assert_eq!(sender_actions(false, &ignored, &"@bob:x".to_string()), vec![SenderAction::Ignore]);
}
