use constellations::rooms::{JoinRule, RoomData};
use constellations::settings::app;
use constellations::settings::config::Config;
use constellations::settings::room;
use constellations::settings::space;
use constellations::settings::user;

#[test]
fn test_update_toggle_sync_indicator() {
    let mut state = app::State::default();
    assert!(!state.show_sync_indicator);

    let _ = state.update(app::Message::ToggleSyncIndicator(true));
    assert!(state.show_sync_indicator);

    let _ = state.update(app::Message::ToggleSyncIndicator(false));
    assert!(!state.show_sync_indicator);
}

#[test]
fn test_update_toggle_typing_notifications() {
    let mut state = app::State::default();
    assert!(!state.send_typing_notifications);

    let _ = state.update(app::Message::ToggleTypingNotifications(true));
    assert!(state.send_typing_notifications);

    let _ = state.update(app::Message::ToggleTypingNotifications(false));
    assert!(!state.send_typing_notifications);
}

#[test]
fn test_update_toggle_markdown() {
    let mut state = app::State::default();
    assert!(!state.render_markdown);

    let _ = state.update(app::Message::ToggleMarkdown(true));
    assert!(state.render_markdown);

    let _ = state.update(app::Message::ToggleMarkdown(false));
    assert!(!state.render_markdown);
}

#[test]
fn test_update_toggle_compact_mode() {
    let mut state = app::State::default();
    assert!(!state.compact_mode);

    let _ = state.update(app::Message::ToggleCompactMode(true));
    assert!(state.compact_mode);

    let _ = state.update(app::Message::ToggleCompactMode(false));
    assert!(!state.compact_mode);
}

#[test]
fn test_update_clear_cache() {
    let mut state = app::State::default();
    let _ = state.update(app::Message::ClearCache);
    assert!(!state.show_sync_indicator);
    assert!(!state.send_typing_notifications);
    assert!(!state.render_markdown);
    assert!(!state.compact_mode);
}

#[test]
fn app_effects_name_what_changed() {
    let mut state = app::State::default();
    assert_eq!(state.update(app::Message::ToggleCompactMode(true)), app::Effect::SettingChanged);
    assert_eq!(state.update(app::Message::ClearCache), app::Effect::ClearCache);
    assert!(state.compact_mode);
}

#[test]
fn app_state_follows_the_stored_config() {
    let config = Config {
        show_sync_indicator: true,
        send_typing_notifications: false,
        render_markdown: true,
        compact_mode: false,
        ..Config::default()
    };
    let state = app::State::from_config(&config);
    assert!(state.show_sync_indicator);
    assert!(!state.send_typing_notifications);
    assert!(state.render_markdown);
    assert!(!state.compact_mode);
}

#[test]
fn room_test_name_changed() {
    let mut state = room::State::default();
    let _ = state.update(room::Message::NameChanged("New Room Name".to_string()), false);
    assert_eq!(state.name, "New Room Name");
}

#[test]
fn room_test_topic_changed() {
    let mut state = room::State::default();
    let _ = state.update(room::Message::TopicChanged("New Topic".to_string()), false);
    assert_eq!(state.topic, "New Topic");
}

#[test]
fn test_load_room_no_matrix() {
    let mut state = room::State::default();
    let fx = state.update(room::Message::LoadRoom("!some_room:example.com".to_string()), false);
    assert_eq!(state.is_loading, false);
    assert_eq!(state.room_id, None);
    assert!(fx.is_empty());
}

#[test]
fn room_test_dismiss_error() {
    let mut state = room::State::default();
    state.error = Some("An error occurred".to_string());
    let _ = state.update(room::Message::DismissError, false);
    assert_eq!(state.error, None);
}

#[test]
fn test_invite_user_id_changed() {
    let mut state = room::State::default();
    let _ = state.update(room::Message::InviteUserIdChanged("@user:example.com".to_string()), false);
    assert_eq!(state.invite_user_id, "@user:example.com");
}

#[test]
fn test_action_reason_changed() {
    let mut state = room::State::default();
    let _ = state.update(room::Message::ActionReasonChanged("Spam".to_string()), false);
    assert_eq!(state.action_reason, "Spam");
}

#[test]
fn test_member_filter_changed() {
    let mut state = room::State::default();
    let _ = state.update(room::Message::MemberFilterChanged("John".to_string()), false);
    assert_eq!(state.member_filter, "John");
}

#[test]
fn test_join_rule_changed() {
    let mut state = room::State::default();
    state.room_id = Some("!room:example.com".to_string());
    let fx = state.update(room::Message::JoinRuleChanged(JoinRule::Public), false);
    assert!(fx.is_empty());
}

#[test]
fn test_pinned_event_id_changed() {
    let mut state = room::State::default();
    let _ = state.update(room::Message::PinnedEventIdChanged("$event:example.com".to_string()), false);
    assert_eq!(state.pinned_event_id_input, "$event:example.com");
}

#[test]
fn test_history_visibility_changed() {
    let mut state = room::State::default();
    state.room_id = Some("!room:example.com".to_string());
    let fx = state.update(room::Message::HistoryVisibilityChanged(room::HistoryVisibility::Shared), false);
    assert!(fx.is_empty());
}

#[test]
fn test_restricted_space_id_changed() {
    let mut state = room::State::default();
    let _ = state.update(room::Message::RestrictedSpaceIdChanged("!space:example.com".to_string()), false);
    assert_eq!(state.restricted_space_id, "!space:example.com");
}

#[test]
fn test_join_rule_changed_knock() {
    let mut state = room::State::default();
    state.room_id = Some("!room:example.com".to_string());
    let _ = state.update(room::Message::JoinRuleChanged(JoinRule::Knock), false);
    assert_eq!(state.join_rule, Some(JoinRule::Knock));
}

#[test]
fn test_aliases_changed() {
    let mut state = room::State::default();

    let _ = state.update(room::Message::CanonicalAliasChanged("#new:example.com".to_string()), false);
    assert_eq!(state.canonical_alias, "#new:example.com");

    let _ = state.update(room::Message::NewAltAliasInputChanged("#alt1:example.com".to_string()), false);
    assert_eq!(state.new_alt_alias_input, "#alt1:example.com");

    let _ = state.update(room::Message::AltAliasAdded, false);
    assert_eq!(state.alt_aliases, vec!["#alt1:example.com".to_string()]);
    assert_eq!(state.new_alt_alias_input, "");

    let _ = state.update(room::Message::AltAliasRemoved("#alt1:example.com".to_string()), false);
    assert!(state.alt_aliases.is_empty());
}

#[test]
fn room_alt_alias_is_trimmed_and_not_repeated() {
    let mut state = room::State::default();
    let _ = state.update(room::Message::NewAltAliasInputChanged("  #a:x  ".to_string()), false);
    let _ = state.update(room::Message::AltAliasAdded, false);
    let _ = state.update(room::Message::NewAltAliasInputChanged("#a:x".to_string()), false);
    let _ = state.update(room::Message::AltAliasAdded, false);
    assert_eq!(state.alt_aliases, vec!["#a:x".to_string()]);
    let _ = state.update(room::Message::NewAltAliasInputChanged("   ".to_string()), false);
    let _ = state.update(room::Message::AltAliasAdded, false);
    assert_eq!(state.alt_aliases.len(), 1);
}

#[test]
fn room_join_rule_with_engine_asks_the_server() {
    let mut state = room::State::default();
    state.room_id = Some("!room:example.com".to_string());
    let fx = state.update(room::Message::JoinRuleChanged(JoinRule::Invite), true);
    assert_eq!(fx.len(), 1);
    match &fx[0] {
        room::Effect::SetJoinRule { room_id, join_rule } => {
            assert_eq!(room_id, "!room:example.com");
            assert_eq!(*join_rule, JoinRule::Invite);
        }
        _ => panic!("unexpected effect"),
    }
}

#[test]
fn room_failed_fetch_shows_the_reason() {
    let mut state = room::State::default();
    state.is_loading_avatar = true;
    let _ = state.update(room::Message::AvatarMediaFetched(Err("timeout".to_string())), false);
    assert!(!state.is_loading_avatar);
    assert_eq!(state.error, Some("Failed to fetch avatar: timeout".to_string()));
}

#[test]
fn room_level_field_accepts_only_numbers() {
    let mut state = room::State::default();
    let _ = state.update(room::Message::LevelChanged(room::LevelField::Ban, "75".to_string()), false);
    assert_eq!(state.ban_level, 75);
    assert_eq!(state.ban_level_str, "75");
    let _ = state.update(room::Message::LevelChanged(room::LevelField::Ban, "x".to_string()), false);
    assert_eq!(state.ban_level, 75);
    assert_eq!(state.ban_level_str, "x");
}

#[test]
fn space_test_name_changed() {
    let mut state = space::State::default();
    let _ = state.update(space::Message::NameChanged("New Space Name".to_string()), false);
    assert_eq!(state.name, "New Space Name");
}

#[test]
fn space_test_topic_changed() {
    let mut state = space::State::default();
    let _ = state.update(space::Message::TopicChanged("New Topic".to_string()), false);
    assert_eq!(state.topic, "New Topic");
}

#[test]
fn test_canonical_alias_changed() {
    let mut state = space::State::default();
    let _ = state.update(space::Message::CanonicalAliasChanged("#new_alias:example.com".to_string()), false);
    assert_eq!(state.canonical_alias, "#new_alias:example.com");
}

#[test]
fn space_test_dismiss_error() {
    let mut state = space::State::default();
    state.error = Some("An error occurred".to_string());
    let _ = state.update(space::Message::DismissError, false);
    assert_eq!(state.error, None);
}

#[test]
fn test_child_filter_changed() {
    let mut state = space::State::default();
    let _ = state.update(space::Message::ChildFilterChanged("test".to_string()), false);
    assert_eq!(state.child_filter, "test");
}

#[test]
fn test_display_name_changed() {
    let mut state = user::State::default();
    let _ = state.update(user::Message::DisplayNameChanged("John Doe".to_string()), false);
    assert_eq!(state.display_name, "John Doe");
}

#[test]
fn user_test_dismiss_error() {
    let mut state = user::State::default();
    state.error = Some("Error".to_string());
    let _ = state.update(user::Message::DismissError, false);
    assert_eq!(state.error, None);
}

#[test]
fn user_password_mismatch_is_refused() {
    let mut state = user::State::default();
    let _ = state.update(user::Message::CurrentPasswordChanged("old".to_string()), true);
    let _ = state.update(user::Message::NewPasswordChanged("new1".to_string()), true);
    let _ = state.update(user::Message::ConfirmNewPasswordChanged("new2".to_string()), true);
    let fx = state.update(user::Message::ChangePassword, true);
    assert!(fx.is_empty());
    assert_eq!(state.error, Some("New passwords do not match".to_string()));
    assert!(!state.is_changing_password);
}

#[test]
fn user_password_change_is_requested() {
    let mut state = user::State::default();
    let _ = state.update(user::Message::CurrentPasswordChanged("old".to_string()), true);
    let _ = state.update(user::Message::NewPasswordChanged("new".to_string()), true);
    let _ = state.update(user::Message::ConfirmNewPasswordChanged("new".to_string()), true);
    let fx = state.update(user::Message::ChangePassword, true);
    assert_eq!(fx.len(), 1);
    match &fx[0] {
        user::Effect::ChangePassword { current, new } => {
            assert_eq!(current, "old");
            assert_eq!(new, "new");
        }
        _ => panic!("unexpected effect"),
    }
    assert!(state.is_changing_password);
    let _ = state.update(user::Message::PasswordChanged(Ok(())), true);
    assert!(!state.is_changing_password);
    assert_eq!(state.password_success, Some("Password changed successfully".to_string()));
    assert_eq!(state.current_password, "");
    assert_eq!(state.new_password, "");
}

#[test]
fn user_empty_passwords_are_refused() {
    let mut state = user::State::default();
    let fx = state.update(user::Message::ChangePassword, true);
    assert!(fx.is_empty());
    assert_eq!(state.error, Some("Passwords cannot be empty".to_string()));
}

#[test]
fn user_profile_saved_keeps_the_name() {
    let mut state = user::State::default();
    let _ = state.update(user::Message::DisplayNameChanged("Neo".to_string()), true);
    let fx = state.update(user::Message::SaveProfile, true);
    assert_eq!(fx.len(), 1);
    assert!(state.is_saving);
    let _ = state.update(user::Message::ProfileSaved(Ok(())), true);
    assert!(!state.is_saving);
    assert_eq!(state.original_display_name, "Neo");
    let fx = state.update(user::Message::SaveProfile, true);
    assert!(fx.is_empty());
}

#[test]
fn user_load_profile_asks_for_everything() {
    let mut state = user::State::default();
    assert!(state.update(user::Message::LoadProfile, false).is_empty());
    let fx = state.update(user::Message::LoadProfile, true);
    assert_eq!(fx.len(), 9);
    assert!(state.is_loading);
    assert!(state.is_loading_avatar);
}

#[test]
fn user_failed_load_shows_the_reason() {
    let mut state = user::State::default();
    state.is_loading_ignored_users = true;
    let _ = state.update(user::Message::IgnoredUsersLoaded(Err("offline".to_string())), true);
    assert!(!state.is_loading_ignored_users);
    assert_eq!(state.error, Some("Failed to load ignored users: offline".to_string()));
    let _ = state.update(
        user::Message::IgnoredUsersLoaded(Ok(vec!["@a:x".to_string()])),
        true,
    );
    assert_eq!(state.ignored_users, vec!["@a:x".to_string()]);
}

#[test]
fn user_notification_mode_is_set_for_its_kind() {
    let mut state = user::State::default();
    let fx = state.update(
        user::Message::GlobalNotificationModeChanged(true, room::NotificationMode::MentionsAndKeywordsOnly),
        true,
    );
    assert_eq!(fx.len(), 1);
    assert_eq!(state.global_notification_mode_dm, Some(room::NotificationMode::MentionsAndKeywordsOnly));
    assert_eq!(state.global_notification_mode_group, None);
    assert!(state.is_loading_global_notifications);
}

#[test]
fn user_state_follows_the_stored_config() {
    let config = Config { media_previews_display_policy: false, ..Config::default() };
    let state = user::State::from_config(&config);
    assert!(!state.media_previews_display_policy);
    assert!(state.invite_avatars_display_policy);
    assert_eq!(state.display_name, "");
}

fn child(id: &str, name: Option<&str>, is_space: bool) -> RoomData {
    RoomData {
        id: id.to_string(),
        name: name.map(|n| n.to_string()),
        last_message: None,
        unread_count: 0,
        unread_count_str: None,
        avatar_url: None,
        room_type: None,
        is_space,
        parent_space_id: None,
        join_rule: None,
        allowed_spaces: Vec::new(),
        order: None,
        suggested: false,
    }
}

#[test]
fn space_hierarchy_rows_follow_the_filter() {
    let mut state = space::State::default();
    state.space_id = Some("!space:x".to_string());
    let mut general = child("!general:x", Some("General"), false);
    general.order = Some("a".to_string());
    general.join_rule = Some(JoinRule::Restricted(vec!["!space:x".to_string()]));
    let random = child("!random:x", None, false);
    let sub = child("!sub:x", Some("Sub Space"), true);
    state.children = vec![general, random, sub];

    let rows = state.hierarchy_rows();
    assert_eq!(rows.len(), 3);
    assert_eq!(rows[0].name, "General");
    assert_eq!(rows[0].order, "a");
    assert!(rows[0].restricted_to_space);
    assert_eq!(rows[1].name, "!random:x");
    assert_eq!(rows[1].order, "");
    assert!(!rows[1].restricted_to_space);
    assert!(rows[2].is_space);

    let _ = state.update(space::Message::ChildFilterChanged("GEN".to_string()), false);
    let rows = state.hierarchy_rows();
    assert_eq!(rows.len(), 1);
    assert_eq!(rows[0].id, "!general:x");

    let _ = state.update(space::Message::ChildFilterChanged("random".to_string()), false);
    let rows = state.hierarchy_rows();
    assert_eq!(rows.len(), 1);
    assert_eq!(rows[0].id, "!random:x");

    state.is_loading_children = true;
    assert!(state.hierarchy_rows().is_empty());
}

#[test]
fn room_permission_controls_follow_the_rules() {
    let mut state = room::State::default();
    state.join_rule = Some(JoinRule::Invite);
    state.history_visibility = Some(room::HistoryVisibility::Shared);
    let c = state.permission_controls(false);
    assert!(c.invite_selected && !c.public_selected && !c.restricted_selected);
    assert!(c.shared_selected && !c.joined_selected);
    assert!(!c.show_space_row);
    assert_eq!(c.restrict_to, None);
    assert_eq!(c.apply_to, None);

    state.restricted_space_id = "!space:x".to_string();
    let c = state.permission_controls(true);
    assert_eq!(c.restrict_to, Some("!space:x".to_string()));
    assert!(c.show_space_row);
    assert_eq!(c.apply_to, Some("!space:x".to_string()));

    state.join_rule = Some(JoinRule::Restricted(vec!["!space:x".to_string()]));
    let c = state.permission_controls(true);
    assert!(c.restricted_selected);
    assert_eq!(c.restrict_to, None);
    assert_eq!(c.apply_to, None);

    state.restricted_space_id = "!other:x".to_string();
    let c = state.permission_controls(true);
    assert_eq!(c.apply_to, Some("!other:x".to_string()));
    let c = state.permission_controls(false);
    assert_eq!(c.apply_to, None);
}

#[test]
fn room_member_rows_follow_power_levels() {
    let mut state = room::State::default();
    assert!(state.member_rows().is_none());
    state.power_levels = Some((
        0,
        vec![
            ("@me:x".to_string(), 100),
            ("@bob:x".to_string(), 50),
            ("@carol:x".to_string(), 0),
        ],
    ));
    state.current_user_id = Some("@me:x".to_string());
    state.my_power_level = 100;
    state.kick_level = 50;
    state.ban_level = 100;
    state.updating_power_level_for = Some("@carol:x".to_string());

    let rows = state.member_rows().unwrap();
    assert_eq!(rows.len(), 3);
    assert!(!rows[0].can_kick && !rows[0].can_ban);
    assert!(rows[0].can_set_default && rows[0].can_set_moderator && !rows[0].can_set_admin);
    assert!(rows[1].can_kick && rows[1].can_ban);
    assert!(!rows[1].can_set_moderator && rows[1].can_set_admin);
    assert!(!rows[2].can_set_default && !rows[2].can_set_moderator && !rows[2].can_set_admin);

    state.my_power_level = 50;
    let rows = state.member_rows().unwrap();
    assert!(rows[1].can_kick && !rows[1].can_ban);

    let _ = state.update(room::Message::MemberFilterChanged("BOB".to_string()), false);
    let rows = state.member_rows().unwrap();
    assert_eq!(rows.len(), 1);
    assert_eq!(rows[0].user_id, "@bob:x");
    assert_eq!(rows[0].level, 50);
}

#[test]
fn room_invite_controls_need_a_user_id() {
    let mut state = room::State::default();
    state.my_power_level = 0;
    state.invite_level = 50;
    let c = state.invite_controls();
    assert!(!c.show_invite);
    assert!(!c.enabled);
    state.my_power_level = 50;
    state.invite_user_id = "  ".to_string();
    let c = state.invite_controls();
    assert!(c.show_invite && !c.enabled);
    state.invite_user_id = "@dan:x".to_string();
    assert!(state.invite_controls().enabled);
}

#[test]
fn user_device_rows_offer_the_right_actions() {
    let mut state = user::State::default();
    state.devices = vec![
        user::DeviceInfo {
            device_id: "THIS".to_string(),
            display_name: Some("Laptop".to_string()),
            is_verified: false,
            is_current: true,
            is_renaming: false,
            edit_name: String::new(),
            is_deleting: false,
        },
        user::DeviceInfo {
            device_id: "PHONE".to_string(),
            display_name: None,
            is_verified: false,
            is_current: false,
            is_renaming: true,
            edit_name: "Phone".to_string(),
            is_deleting: true,
        },
    ];
    let rows = state.device_rows();
    assert_eq!(rows.len(), 2);
    assert_eq!(rows[0].name, "Laptop");
    assert!(!rows[0].can_verify && rows[0].can_delete && rows[0].is_current);
    assert_eq!(rows[1].name, "Unknown Device");
    assert!(rows[1].can_verify && !rows[1].can_delete && rows[1].is_renaming);
    state.is_loading_devices = true;
    assert!(state.device_rows().is_empty());
}
