//! The room settings panel: what each message does to the panel's state,
//! and which requests to the homeserver (or dialogs) it starts.
use vstd::prelude::*;
use crate::rooms::{JoinRule, clone_string_vec};
use crate::space::{contains_string, strs_view};
use crate::summary::{trim_str, trim_text};
use crate::text::{concat_str, contains_ignore_ascii_case, contains_ignore_ascii_case_spec, i64_text, i64_to_string, parse_i64, parse_i64_spec, str_eq, str_to_lowercase, unicode_lowercase};

verus! {

/// The user's membership of a room.
#[derive(Debug, Clone, Copy, PartialEq, Eq, Structural)]
pub enum Membership {
    Joined,
    Invited,
    Left,
    Knocked,
    Banned,
}

/// When the user is notified about a room's messages.
#[derive(Debug, Clone, Copy, PartialEq, Eq, Structural)]
pub enum NotificationMode {
    AllMessages,
    MentionsAndKeywordsOnly,
    Mute,
}

/// Who can read a room's history.
#[derive(Debug, Clone, PartialEq, Eq)]
pub enum HistoryVisibility {
    Invited,
    Joined,
    Shared,
    WorldReadable,
    /// A setting this client does not know.
    Other(String),
}

/// What loading a room reports.
pub struct RoomInfo {
    pub name: String,
    pub topic: String,
    pub avatar_url: Option<String>,
    pub membership: Membership,
    pub ban_level: i64,
    pub invite_level: i64,
    pub kick_level: i64,
    pub redact_level: i64,
    pub events_default_level: i64,
    pub room_name_level: i64,
    pub room_topic_level: i64,
    pub room_avatar_level: i64,
    pub current_user_id: Option<String>,
    pub notification_mode: Option<NotificationMode>,
    pub join_rule: Option<JoinRule>,
    pub history_visibility: Option<HistoryVisibility>,
    pub pinned_events: Vec<String>,
    pub is_encrypted: bool,
    pub canonical_alias: Option<String>,
    pub alt_aliases: Vec<String>,
}

/// What loading the room's power levels reports.
pub struct PowerLevelInfo {
    pub default_level: i64,
    pub users: Vec<(String, i64)>,
    pub my_level: i64,
}

/// The power levels to change when saving; `None` keeps a level.
pub struct PowerLevelChanges {
    pub ban: Option<i64>,
    pub invite: Option<i64>,
    pub kick: Option<i64>,
    pub redact: Option<i64>,
    pub events_default: Option<i64>,
    pub room_name: Option<i64>,
    pub room_topic: Option<i64>,
    pub room_avatar: Option<i64>,
}

/// What saving the panel sends, in this order; `None` sends nothing of a
/// part. The aliases are the canonical alias (none when empty) and the
/// alternative ones.
pub struct RoomChanges {
    pub name: Option<String>,
    pub topic: Option<String>,
    pub power_levels: Option<PowerLevelChanges>,
    pub aliases: Option<(Option<String>, Vec<String>)>,
}

/// The room settings panel.
pub struct State {
    pub room_id: Option<String>,
    pub name: String,
    pub original_name: String,
    pub topic: String,
    pub original_topic: String,
    pub is_loading: bool,
    pub is_saving: bool,
    pub error: Option<String>,
    pub avatar_url: Option<String>,
    /// The avatar's image data, once fetched.
    pub avatar_data: Option<Vec<u8>>,
    pub is_uploading_avatar: bool,
    pub is_loading_avatar: bool,
    pub membership: Option<Membership>,
    /// The default level and the levels of the users listed.
    pub power_levels: Option<(i64, Vec<(String, i64)>)>,
    pub is_loading_power_levels: bool,
    pub updating_power_level_for: Option<String>,
    pub ban_level: i64,
    pub original_ban_level: i64,
    pub invite_level: i64,
    pub original_invite_level: i64,
    pub kick_level: i64,
    pub original_kick_level: i64,
    pub redact_level: i64,
    pub original_redact_level: i64,
    pub events_default_level: i64,
    pub original_events_default_level: i64,
    pub room_name_level: i64,
    pub original_room_name_level: i64,
    pub room_topic_level: i64,
    pub original_room_topic_level: i64,
    pub room_avatar_level: i64,
    pub original_room_avatar_level: i64,
    pub invite_level_str: String,
    pub kick_level_str: String,
    pub ban_level_str: String,
    pub redact_level_str: String,
    pub events_default_level_str: String,
    pub room_name_level_str: String,
    pub room_topic_level_str: String,
    pub room_avatar_level_str: String,
    pub invite_user_id: String,
    pub kick_user_id: String,
    pub ban_user_id: String,
    pub action_reason: String,
    pub current_user_id: Option<String>,
    pub my_power_level: i64,
    pub member_filter: String,
    pub notification_mode: Option<NotificationMode>,
    pub is_loading_notifications: bool,
    pub join_rule: Option<JoinRule>,
    pub history_visibility: Option<HistoryVisibility>,
    pub restricted_space_id: String,
    pub pinned_events: Vec<String>,
    pub pinned_event_id_input: String,
    pub is_encrypted: bool,
    pub canonical_alias: String,
    pub original_canonical_alias: String,
    pub alt_aliases: Vec<String>,
    pub original_alt_aliases: Vec<String>,
    pub new_alt_alias_input: String,
}

/// Which power level a level field holds.
#[derive(Debug, Clone, Copy, PartialEq, Eq, Structural)]
pub enum LevelField {
    Ban,
    Invite,
    Kick,
    Redact,
    EventsDefault,
    RoomName,
    RoomTopic,
    RoomAvatar,
}

/// What the user or the homeserver told the panel.
pub enum Message {
    LoadRoom(String),
    RoomLoaded(Result<RoomInfo, String>),
    NameChanged(String),
    TopicChanged(String),
    SaveRoom,
    RoomSaved(Result<(), String>),
    DismissError,
    AvatarMediaFetched(Result<Vec<u8>, String>),
    SelectAvatar,
    /// The file picked for the avatar, if any.
    AvatarFileSelected(Option<String>),
    AvatarUploaded(Result<(), String>),
    LeaveRoom,
    RoomLeft(Result<(), String>),
    ForgetRoom,
    RoomForgotten(Result<(), String>),
    LoadPowerLevels,
    PowerLevelsLoaded(Result<PowerLevelInfo, String>),
    UpdatePowerLevel(String, i64),
    PowerLevelUpdated(String, Result<(), String>),
    /// A level field was edited.
    LevelChanged(LevelField, String),
    InviteUser,
    UserInvited(Result<(), String>),
    KickUser(String),
    UserKicked(String, Result<(), String>),
    BanUser(String),
    UserBanned(String, Result<(), String>),
    InviteUserIdChanged(String),
    ActionReasonChanged(String),
    MemberFilterChanged(String),
    NotificationModeChanged(NotificationMode),
    NotificationModeSet(Result<(), String>),
    JoinRuleChanged(JoinRule),
    HistoryVisibilityChanged(HistoryVisibility),
    RestrictedSpaceIdChanged(String),
    PinnedEventIdChanged(String),
    /// Pin the event whose id the input holds: the input read as an event
    /// id, or why it is not one.
    PinEvent(Result<String, String>),
    UnpinEvent(String),
    EnableEncryption,
    EncryptionEnabled(Result<(), String>),
    CanonicalAliasChanged(String),
    AltAliasAdded,
    AltAliasRemoved(String),
    NewAltAliasInputChanged(String),
}

/// What the application is to do for the panel. A request that changes the
/// room reloads it when it succeeds (`LoadRoom`) and reports its failure as
/// a failed save (`RoomSaved`), unless said otherwise.
pub enum Effect {
    /// Load the room (answered by `RoomLoaded`).
    LoadRoom(String),
    /// Fetch the avatar image (answered by `AvatarMediaFetched`).
    FetchAvatar(String),
    /// Send `LoadPowerLevels` to the panel.
    ReloadPowerLevels,
    LoadPowerLevels(String),
    SetHistoryVisibility { room_id: String, visibility: HistoryVisibility },
    SetJoinRule { room_id: String, join_rule: JoinRule },
    /// Answered by `UserInvited`.
    InviteUser { room_id: String, user_id: String },
    /// Answered by `UserKicked`.
    KickUser { room_id: String, user_id: String, reason: Option<String> },
    /// Answered by `UserBanned`.
    BanUser { room_id: String, user_id: String, reason: Option<String> },
    /// Answered by `PowerLevelUpdated`.
    UpdatePowerLevel { room_id: String, user_id: String, level: i64 },
    /// Answered by `RoomSaved`.
    SaveRoom { room_id: String, changes: RoomChanges },
    /// Ask for an image file (answered by `AvatarFileSelected`).
    PickAvatarFile,
    /// Answered by `AvatarUploaded`.
    UploadAvatar { room_id: String, path: String },
    /// Answered by `RoomLeft`.
    LeaveRoom(String),
    /// Answered by `RoomForgotten`.
    ForgetRoom(String),
    CloseSettings,
    /// Answered by `NotificationModeSet`.
    SetNotificationMode { room_id: String, mode: NotificationMode },
    SetPinnedEvents { room_id: String, pinned: Vec<String> },
    /// Answered by `EncryptionEnabled`.
    EnableEncryption(String),
}

/// A level field's value, as typed.
pub open spec fn level_of(s: State, f: LevelField) -> i64 {
    match f {
        LevelField::Ban => s.ban_level,
        LevelField::Invite => s.invite_level,
        LevelField::Kick => s.kick_level,
        LevelField::Redact => s.redact_level,
        LevelField::EventsDefault => s.events_default_level,
        LevelField::RoomName => s.room_name_level,
        LevelField::RoomTopic => s.room_topic_level,
        LevelField::RoomAvatar => s.room_avatar_level,
    }
}

/// `s` with the level field `f` showing `text`, and holding `v`.
pub open spec fn with_level(s: State, f: LevelField, text: String, v: i64) -> State {
    match f {
        LevelField::Ban => State { ban_level_str: text, ban_level: v, ..s },
        LevelField::Invite => State { invite_level_str: text, invite_level: v, ..s },
        LevelField::Kick => State { kick_level_str: text, kick_level: v, ..s },
        LevelField::Redact => State { redact_level_str: text, redact_level: v, ..s },
        LevelField::EventsDefault => State { events_default_level_str: text, events_default_level: v, ..s },
        LevelField::RoomName => State { room_name_level_str: text, room_name_level: v, ..s },
        LevelField::RoomTopic => State { room_topic_level_str: text, room_topic_level: v, ..s },
        LevelField::RoomAvatar => State { room_avatar_level_str: text, room_avatar_level: v, ..s },
    }
}

/// `new` when it differs from `old`.
pub open spec fn changed(new: i64, old: i64) -> Option<i64> {
    if new != old {
        Some(new)
    } else {
        None
    }
}

/// The levels that differ from those loaded, if any does.
pub open spec fn level_changes(s: State) -> Option<(
    Option<i64>,
    Option<i64>,
    Option<i64>,
    Option<i64>,
    Option<i64>,
    Option<i64>,
    Option<i64>,
    Option<i64>,
)> {
    if s.ban_level != s.original_ban_level || s.invite_level != s.original_invite_level
        || s.kick_level != s.original_kick_level || s.redact_level != s.original_redact_level
        || s.events_default_level != s.original_events_default_level || s.room_name_level
        != s.original_room_name_level || s.room_topic_level != s.original_room_topic_level
        || s.room_avatar_level != s.original_room_avatar_level {
        Some(
            (
                changed(s.ban_level, s.original_ban_level),
                changed(s.invite_level, s.original_invite_level),
                changed(s.kick_level, s.original_kick_level),
                changed(s.redact_level, s.original_redact_level),
                changed(s.events_default_level, s.original_events_default_level),
                changed(s.room_name_level, s.original_room_name_level),
                changed(s.room_topic_level, s.original_room_topic_level),
                changed(s.room_avatar_level, s.original_room_avatar_level),
            ),
        )
    } else {
        None
    }
}

/// The view of a set of level changes.
pub open spec fn level_changes_view(c: Option<PowerLevelChanges>) -> Option<(
    Option<i64>,
    Option<i64>,
    Option<i64>,
    Option<i64>,
    Option<i64>,
    Option<i64>,
    Option<i64>,
    Option<i64>,
)> {
    match c {
        Some(p) => Some(
            (p.ban, p.invite, p.kick, p.redact, p.events_default, p.room_name, p.room_topic, p.room_avatar),
        ),
        None => None,
    }
}

/// The aliases are sent when the canonical alias is empty or differs from
/// the one loaded, or the alternative aliases differ.
pub open spec fn aliases_changed(s: State) -> bool {
    s.canonical_alias@.len() == 0 || s.canonical_alias@ != s.original_canonical_alias@
        || strs_view(s.alt_aliases@) != strs_view(s.original_alt_aliases@)
}

/// What saving the panel `s` sends (see `RoomChanges`).
pub open spec fn changes_to_save(s: State, c: RoomChanges) -> bool {
    &&& c.name == (if s.name@ != s.original_name@ { Some(s.name) } else { None })
    &&& c.topic == (if s.topic@ != s.original_topic@ { Some(s.topic) } else { None })
    &&& level_changes_view(c.power_levels) == level_changes(s)
    &&& match c.aliases {
        Some((canonical, alt)) => aliases_changed(s) && strs_view(alt@) == strs_view(s.alt_aliases@)
            && canonical == (if s.canonical_alias@.len() == 0 { None } else { Some(s.canonical_alias) }),
        None => !aliases_changed(s),
    }
}

/// Saving sends a power level exactly when it was changed, and then sends
/// that level's new value in that level's own field: the ban level as the
/// ban level, the room-name level as the room-name level, and so on. No
/// power levels are sent when none changed.
pub proof fn law_saved_power_levels_are_the_changed_ones(s: State, c: RoomChanges)
    requires
        changes_to_save(s, c),
    ensures
        c.power_levels is None <==> (s.ban_level == s.original_ban_level && s.invite_level == s.original_invite_level && s.kick_level == s.original_kick_level && s.redact_level == s.original_redact_level && s.events_default_level == s.original_events_default_level && s.room_name_level == s.original_room_name_level && s.room_topic_level == s.original_room_topic_level && s.room_avatar_level == s.original_room_avatar_level),
        c.power_levels matches Some(p) ==> (p.ban is Some <==> s.ban_level != s.original_ban_level) && (p.ban is Some ==> p.ban == Some(s.ban_level)),
        c.power_levels matches Some(p) ==> (p.invite is Some <==> s.invite_level != s.original_invite_level) && (p.invite is Some ==> p.invite == Some(s.invite_level)),
        c.power_levels matches Some(p) ==> (p.kick is Some <==> s.kick_level != s.original_kick_level) && (p.kick is Some ==> p.kick == Some(s.kick_level)),
        c.power_levels matches Some(p) ==> (p.redact is Some <==> s.redact_level != s.original_redact_level) && (p.redact is Some ==> p.redact == Some(s.redact_level)),
        c.power_levels matches Some(p) ==> (p.events_default is Some <==> s.events_default_level != s.original_events_default_level) && (p.events_default is Some ==> p.events_default == Some(s.events_default_level)),
        c.power_levels matches Some(p) ==> (p.room_name is Some <==> s.room_name_level != s.original_room_name_level) && (p.room_name is Some ==> p.room_name == Some(s.room_name_level)),
        c.power_levels matches Some(p) ==> (p.room_topic is Some <==> s.room_topic_level != s.original_room_topic_level) && (p.room_topic is Some ==> p.room_topic == Some(s.room_topic_level)),
        c.power_levels matches Some(p) ==> (p.room_avatar is Some <==> s.room_avatar_level != s.original_room_avatar_level) && (p.room_avatar is Some ==> p.room_avatar == Some(s.room_avatar_level)),
{
}

/// The error the panel shows after `prefix` and the reason `e`.
pub open spec fn error_is(s: State, prefix: Seq<char>, e: Seq<char>) -> bool {
    s.error matches Some(m) && m@ == prefix + e
}

/// The alternative aliases without `a`.
pub open spec fn without_alias(v: Seq<Seq<char>>, a: Seq<char>) -> Seq<Seq<char>> {
    v.filter(|x: Seq<char>| x != a)
}

/// The room to act on, when there is an engine and a room.
pub open spec fn target(s: State, engine: bool) -> Option<String> {
    if engine {
        s.room_id
    } else {
        None
    }
}

/// What loading the room `id` does (when there is an engine).
pub open spec fn load_room(pre: State, id: String, engine: bool, post: State, fx: Seq<Effect>) -> bool {
    if engine {
        &&& post == (State { room_id: Some(id), is_loading: true, error: None, ..pre })
        &&& fx =~= seq![Effect::LoadRoom(id)]
    } else {
        post == pre && fx.len() == 0
    }
}

/// What a room being loaded does to the panel.
pub open spec fn room_loaded(pre: State, info: RoomInfo, engine: bool, post: State, fx: Seq<Effect>) -> bool {
    let fetch = info.avatar_url is Some && engine;
    &&& post.name == info.name && post.original_name == info.name
    &&& post.topic == info.topic && post.original_topic == info.topic
    &&& post.avatar_url == info.avatar_url
    &&& post.membership == Some(info.membership)
    &&& post.ban_level == info.ban_level && post.original_ban_level == info.ban_level
    &&& post.invite_level == info.invite_level && post.original_invite_level == info.invite_level
    &&& post.kick_level == info.kick_level && post.original_kick_level == info.kick_level
    &&& post.redact_level == info.redact_level && post.original_redact_level == info.redact_level
    &&& post.events_default_level == info.events_default_level && post.original_events_default_level
        == info.events_default_level
    &&& post.room_name_level == info.room_name_level && post.original_room_name_level
        == info.room_name_level
    &&& post.room_topic_level == info.room_topic_level && post.original_room_topic_level
        == info.room_topic_level
    &&& post.room_avatar_level == info.room_avatar_level && post.original_room_avatar_level
        == info.room_avatar_level
    &&& post.ban_level_str@ == i64_text(info.ban_level)
    &&& post.invite_level_str@ == i64_text(info.invite_level)
    &&& post.kick_level_str@ == i64_text(info.kick_level)
    &&& post.redact_level_str@ == i64_text(info.redact_level)
    &&& post.events_default_level_str@ == i64_text(info.events_default_level)
    &&& post.room_name_level_str@ == i64_text(info.room_name_level)
    &&& post.room_topic_level_str@ == i64_text(info.room_topic_level)
    &&& post.room_avatar_level_str@ == i64_text(info.room_avatar_level)
    &&& post.current_user_id == info.current_user_id
    &&& post.notification_mode == info.notification_mode
    &&& post.join_rule == info.join_rule
    &&& post.history_visibility == info.history_visibility
    &&& post.restricted_space_id@ == match info.join_rule {
        Some(JoinRule::Restricted(v)) => if v@.len() > 0 {
            v@[0]@
        } else {
            Seq::empty()
        },
        _ => Seq::empty(),
    }
    &&& post.pinned_events == info.pinned_events
    &&& post.pinned_event_id_input@.len() == 0
    &&& post.is_encrypted == info.is_encrypted
    &&& post.canonical_alias@ == match info.canonical_alias {
        Some(a) => a@,
        None => Seq::empty(),
    }
    &&& post.original_canonical_alias@ == post.canonical_alias@
    &&& strs_view(post.alt_aliases@) == strs_view(info.alt_aliases@)
    &&& strs_view(post.original_alt_aliases@) == strs_view(info.alt_aliases@)
    &&& post.new_alt_alias_input@.len() == 0
    &&& post.error is None
    &&& !post.is_loading
    &&& post.is_loading_avatar == (pre.is_loading_avatar || fetch)
    &&& post == (State {
        name: post.name,
        original_name: post.original_name,
        topic: post.topic,
        original_topic: post.original_topic,
        avatar_url: post.avatar_url,
        membership: post.membership,
        ban_level: post.ban_level,
        original_ban_level: post.original_ban_level,
        invite_level: post.invite_level,
        original_invite_level: post.original_invite_level,
        kick_level: post.kick_level,
        original_kick_level: post.original_kick_level,
        redact_level: post.redact_level,
        original_redact_level: post.original_redact_level,
        events_default_level: post.events_default_level,
        original_events_default_level: post.original_events_default_level,
        room_name_level: post.room_name_level,
        original_room_name_level: post.original_room_name_level,
        room_topic_level: post.room_topic_level,
        original_room_topic_level: post.original_room_topic_level,
        room_avatar_level: post.room_avatar_level,
        original_room_avatar_level: post.original_room_avatar_level,
        ban_level_str: post.ban_level_str,
        invite_level_str: post.invite_level_str,
        kick_level_str: post.kick_level_str,
        redact_level_str: post.redact_level_str,
        events_default_level_str: post.events_default_level_str,
        room_name_level_str: post.room_name_level_str,
        room_topic_level_str: post.room_topic_level_str,
        room_avatar_level_str: post.room_avatar_level_str,
        current_user_id: post.current_user_id,
        notification_mode: post.notification_mode,
        join_rule: post.join_rule,
        history_visibility: post.history_visibility,
        restricted_space_id: post.restricted_space_id,
        pinned_events: post.pinned_events,
        pinned_event_id_input: post.pinned_event_id_input,
        is_encrypted: post.is_encrypted,
        canonical_alias: post.canonical_alias,
        original_canonical_alias: post.original_canonical_alias,
        alt_aliases: post.alt_aliases,
        original_alt_aliases: post.original_alt_aliases,
        new_alt_alias_input: post.new_alt_alias_input,
        error: None,
        is_loading: false,
        is_loading_avatar: post.is_loading_avatar,
        ..pre
    })
    &&& fx =~= if fetch {
        seq![Effect::FetchAvatar(info.avatar_url->0), Effect::ReloadPowerLevels]
    } else {
        seq![Effect::ReloadPowerLevels]
    }
}

/// What a finished request does: on success `ok` holds; on failure the
/// error shows `prefix` and the reason, nothing else changes, and nothing
/// is asked.
pub open spec fn on_result(
    pre: State,
    res: Result<(), String>,
    prefix: Seq<char>,
    ok: bool,
    post: State,
    fx: Seq<Effect>,
) -> bool {
    match res {
        Ok(_) => ok,
        Err(e) => error_is(post, prefix, e@) && post == (State { error: post.error, ..pre }) && fx.len()
            == 0,
    }
}

/// The transitions of the panel: `post` and the effects `fx` are what
/// handling `m` in `pre` gives, `engine` telling whether there is a Matrix
/// engine.
pub open spec fn transition(pre: State, m: Message, engine: bool, post: State, fx: Seq<Effect>) -> bool {
    match m {
        Message::LoadRoom(id) => load_room(pre, id, engine, post, fx),
        Message::RoomLoaded(res) => match res {
            Ok(info) => room_loaded(State { is_loading: false, ..pre }, info, engine, post, fx),
            Err(e) => error_is(post, Seq::empty(), e@) && post == (State {
                is_loading: false,
                error: post.error,
                ..pre
            }) && fx.len() == 0,
        },
        Message::NameChanged(n) => post == (State { name: n, ..pre }) && fx.len() == 0,
        Message::TopicChanged(t) => post == (State { topic: t, ..pre }) && fx.len() == 0,
        Message::SaveRoom => match target(pre, engine) {
            Some(id) => post == (State { is_saving: true, error: None, ..pre }) && fx.len() == 1 && (
            fx[0] matches Effect::SaveRoom { room_id, changes } && room_id == id && changes_to_save(
                pre,
                changes,
            )),
            None => post == pre && fx.len() == 0,
        },
        Message::RoomSaved(res) => match res {
            Ok(_) => fx.len() == 0 && strs_view(post.original_alt_aliases@) == strs_view(pre.alt_aliases@)
                && post == (State {
                is_saving: false,
                original_name: pre.name,
                original_topic: pre.topic,
                original_ban_level: pre.ban_level,
                original_invite_level: pre.invite_level,
                original_kick_level: pre.kick_level,
                original_redact_level: pre.redact_level,
                original_canonical_alias: pre.canonical_alias,
                original_alt_aliases: post.original_alt_aliases,
                original_events_default_level: pre.events_default_level,
                original_room_name_level: pre.room_name_level,
                original_room_topic_level: pre.room_topic_level,
                original_room_avatar_level: pre.room_avatar_level,
                error: None,
                ..pre
            }),
            Err(e) => error_is(post, Seq::empty(), e@) && post == (State {
                is_saving: false,
                error: post.error,
                ..pre
            }) && fx.len() == 0,
        },
        Message::DismissError => post == (State { error: None, ..pre }) && fx.len() == 0,
        Message::AvatarMediaFetched(res) => fx.len() == 0 && match res {
            Ok(d) => post == (State { is_loading_avatar: false, avatar_data: Some(d), ..pre }),
            Err(e) => error_is(post, "Failed to fetch avatar: "@, e@) && post == (State {
                is_loading_avatar: false,
                error: post.error,
                ..pre
            }),
        },
        Message::SelectAvatar => post == pre && fx =~= seq![Effect::PickAvatarFile],
        Message::AvatarFileSelected(p) => match p {
            Some(path) => if engine {
                post == (State { is_uploading_avatar: true, ..pre }) && fx.len() == 1 && (
                fx[0] matches Effect::UploadAvatar { room_id, path: q } && q == path && room_id@
                    == match pre.room_id {
                    Some(r) => r@,
                    None => Seq::empty(),
                })
            } else {
                post == pre && fx.len() == 0
            },
            None => post == pre && fx.len() == 0,
        },
        Message::AvatarUploaded(res) => {
            let mid = State { is_uploading_avatar: false, ..pre };
            match res {
                Ok(_) => match pre.room_id {
                    Some(id) => load_room(mid, id, engine, post, fx),
                    None => post == mid && fx.len() == 0,
                },
                Err(e) => on_result(mid, Err(e), "Failed to upload avatar: "@, true, post, fx),
            }
        },
        Message::LeaveRoom => match target(pre, engine) {
            Some(id) => post == (State { is_saving: true, ..pre }) && fx =~= seq![Effect::LeaveRoom(id)],
            None => post == pre && fx.len() == 0,
        },
        Message::RoomLeft(res) => {
            let mid = State { is_saving: false, ..pre };
            match res {
                Ok(_) => match pre.room_id {
                    Some(id) => load_room(mid, id, engine, post, fx),
                    None => post == mid && fx.len() == 0,
                },
                Err(e) => on_result(mid, Err(e), "Failed to leave room: "@, true, post, fx),
            }
        },
        Message::ForgetRoom => match target(pre, engine) {
            Some(id) => post == (State { is_saving: true, ..pre }) && fx =~= seq![Effect::ForgetRoom(id)],
            None => post == pre && fx.len() == 0,
        },
        Message::RoomForgotten(res) => {
            let mid = State { is_saving: false, ..pre };
            on_result(
                mid,
                res,
                "Failed to forget room: "@,
                post == mid && fx =~= seq![Effect::CloseSettings],
                post,
                fx,
            )
        },
        Message::LoadPowerLevels => match target(pre, engine) {
            Some(id) => post == (State { is_loading_power_levels: true, ..pre }) && fx =~= seq![
                Effect::LoadPowerLevels(id),
            ],
            None => post == pre && fx.len() == 0,
        },
        Message::PowerLevelsLoaded(res) => fx.len() == 0 && match res {
            Ok(info) => post == (State {
                is_loading_power_levels: false,
                power_levels: Some((info.default_level, info.users)),
                my_power_level: info.my_level,
                ..pre
            }),
            Err(e) => error_is(post, "Failed to load power levels: "@, e@) && post == (State {
                is_loading_power_levels: false,
                error: post.error,
                ..pre
            }),
        },
        Message::UpdatePowerLevel(user, level) => match target(pre, engine) {
            Some(id) => post == (State { updating_power_level_for: Some(user), ..pre }) && fx =~= seq![
                Effect::UpdatePowerLevel { room_id: id, user_id: user, level },
            ],
            None => post == pre && fx.len() == 0,
        },
        Message::PowerLevelUpdated(user, res) => {
            let mid = State { updating_power_level_for: None, ..pre };
            on_result(
                mid,
                res,
                "Failed to update power level for "@ + user@ + ": "@,
                post.invite_user_id@.len() == 0 && post == (State {
                    invite_user_id: post.invite_user_id,
                    ..mid
                }) && fx =~= seq![Effect::ReloadPowerLevels],
                post,
                fx,
            )
        },
        Message::LevelChanged(f, text) => fx.len() == 0 && post == with_level(
            pre,
            f,
            text,
            match parse_i64_spec(text@) {
                Some(v) => v,
                None => level_of(pre, f),
            },
        ),
        Message::InviteUser => match target(pre, engine) {
            Some(id) => post == pre && fx =~= seq![
                Effect::InviteUser { room_id: id, user_id: pre.invite_user_id },
            ],
            None => post == pre && fx.len() == 0,
        },
        Message::UserInvited(res) => on_result(
            pre,
            res,
            "Failed to invite user: "@,
            post.invite_user_id@.len() == 0 && post == (State {
                invite_user_id: post.invite_user_id,
                error: None,
                ..pre
            }) && fx =~= seq![Effect::ReloadPowerLevels],
            post,
            fx,
        ),
        Message::KickUser(user) => match target(pre, engine) {
            Some(id) => post == pre && fx =~= seq![
                Effect::KickUser {
                    room_id: id,
                    user_id: user,
                    reason: if pre.action_reason@.len() == 0 {
                        None
                    } else {
                        Some(pre.action_reason)
                    },
                },
            ],
            None => post == pre && fx.len() == 0,
        },
        Message::UserKicked(user, res) => on_result(
            pre,
            res,
            "Failed to kick "@ + user@ + ": "@,
            post.action_reason@.len() == 0 && post == (State {
                action_reason: post.action_reason,
                error: None,
                ..pre
            }) && fx =~= seq![Effect::ReloadPowerLevels],
            post,
            fx,
        ),
        Message::BanUser(user) => match target(pre, engine) {
            Some(id) => post == pre && fx =~= seq![
                Effect::BanUser {
                    room_id: id,
                    user_id: user,
                    reason: if pre.action_reason@.len() == 0 {
                        None
                    } else {
                        Some(pre.action_reason)
                    },
                },
            ],
            None => post == pre && fx.len() == 0,
        },
        Message::UserBanned(user, res) => on_result(
            pre,
            res,
            "Failed to ban "@ + user@ + ": "@,
            post.action_reason@.len() == 0 && post == (State {
                action_reason: post.action_reason,
                error: None,
                ..pre
            }) && fx =~= seq![Effect::ReloadPowerLevels],
            post,
            fx,
        ),
        Message::InviteUserIdChanged(v) => post == (State { invite_user_id: v, ..pre }) && fx.len() == 0,
        Message::ActionReasonChanged(v) => post == (State { action_reason: v, ..pre }) && fx.len() == 0,
        Message::MemberFilterChanged(v) => post == (State { member_filter: v, ..pre }) && fx.len() == 0,
        Message::NotificationModeChanged(mode) => match target(pre, engine) {
            Some(id) => post == (State {
                is_loading_notifications: true,
                notification_mode: Some(mode),
                ..pre
            }) && fx =~= seq![Effect::SetNotificationMode { room_id: id, mode }],
            None => post == pre && fx.len() == 0,
        },
        Message::NotificationModeSet(res) => fx.len() == 0 && match res {
            Ok(_) => post == (State { is_loading_notifications: false, ..pre }),
            Err(e) => error_is(post, Seq::empty(), e@) && post == (State {
                is_loading_notifications: false,
                error: post.error,
                ..pre
            }),
        },
        Message::JoinRuleChanged(j) => post == (State { join_rule: Some(j), ..pre }) && match target(
            pre,
            engine,
        ) {
            Some(id) => fx.len() == 1 && (fx[0] matches Effect::SetJoinRule { room_id, join_rule }
                && room_id == id && join_rule@ == j@),
            None => fx.len() == 0,
        },
        Message::HistoryVisibilityChanged(v) => post == pre && match target(pre, engine) {
            Some(id) => fx =~= seq![Effect::SetHistoryVisibility { room_id: id, visibility: v }],
            None => fx.len() == 0,
        },
        Message::RestrictedSpaceIdChanged(v) => post == (State { restricted_space_id: v, ..pre })
            && fx.len() == 0,
        Message::PinnedEventIdChanged(v) => post == (State { pinned_event_id_input: v, ..pre })
            && fx.len() == 0,
        Message::PinEvent(parsed) => match target(pre, engine) {
            Some(id) => match parsed {
                Ok(ev) => post == pre && if strs_view(pre.pinned_events@).contains(ev@) {
                    fx.len() == 0
                } else {
                    fx.len() == 1 && (fx[0] matches Effect::SetPinnedEvents { room_id, pinned }
                        && room_id == id && strs_view(pinned@) == strs_view(pre.pinned_events@).push(ev@))
                },
                Err(e) => error_is(post, "Invalid Event ID: "@, e@) && post == (State {
                    error: post.error,
                    ..pre
                }) && fx.len() == 0,
            },
            None => post == pre && fx.len() == 0,
        },
        Message::UnpinEvent(ev) => post == pre && match target(pre, engine) {
            Some(id) => fx.len() == 1 && (fx[0] matches Effect::SetPinnedEvents { room_id, pinned }
                && room_id == id && strs_view(pinned@) == without_alias(
                strs_view(pre.pinned_events@),
                ev@,
            )),
            None => fx.len() == 0,
        },
        Message::EnableEncryption => post == pre && match target(pre, engine) {
            Some(id) => fx =~= seq![Effect::EnableEncryption(id)],
            None => fx.len() == 0,
        },
        Message::EncryptionEnabled(res) => match res {
            Ok(_) => match pre.room_id {
                Some(id) => load_room(pre, id, engine, post, fx),
                None => post == pre && fx.len() == 0,
            },
            Err(e) => on_result(pre, Err(e), "Failed to enable encryption: "@, true, post, fx),
        },
        Message::CanonicalAliasChanged(v) => post == (State { canonical_alias: v, ..pre }) && fx.len()
            == 0,
        Message::AltAliasAdded => {
            let alias = trim_text(pre.new_alt_alias_input@);
            &&& fx.len() == 0
            &&& post.new_alt_alias_input@.len() == 0
            &&& strs_view(post.alt_aliases@) == if alias.len() > 0 && !strs_view(
                pre.alt_aliases@,
            ).contains(alias) {
                strs_view(pre.alt_aliases@).push(alias)
            } else {
                strs_view(pre.alt_aliases@)
            }
            &&& post == (State {
                new_alt_alias_input: post.new_alt_alias_input,
                alt_aliases: post.alt_aliases,
                ..pre
            })
        },
        Message::AltAliasRemoved(a) => fx.len() == 0 && strs_view(post.alt_aliases@) == without_alias(
            strs_view(pre.alt_aliases@),
            a@,
        ) && post == (State { alt_aliases: post.alt_aliases, ..pre }),
        Message::NewAltAliasInputChanged(v) => post == (State { new_alt_alias_input: v, ..pre })
            && fx.len() == 0,
    }
}

/// `v` without the strings equal to `a`.
pub fn without_string(v: &Vec<String>, a: &String) -> (r: Vec<String>)
    ensures
        strs_view(r@) == without_alias(strs_view(v@), a@),
{
    let ghost sv = strs_view(v@);
    let mut r: Vec<String> = Vec::new();
    let mut i: usize = 0;
    while i < v.len()
        invariant
            sv == strs_view(v@),
            i <= v@.len(),
            strs_view(r@) == without_alias(sv.take(i as int), a@),
        decreases v@.len() - i,
    {
        let ghost before = strs_view(r@);
        assert(sv.take(i + 1).drop_last() =~= sv.take(i as int));
        assert(sv.take(i + 1).last() == v@[i as int]@);
        reveal_with_fuel(Seq::filter, 1);
        if v[i] != *a {
            r.push(v[i].clone());
            assert(strs_view(r@) =~= before.push(v@[i as int]@));
        }
        i = i + 1;
    }
    assert(sv.take(v@.len() as int) =~= sv);
    r
}

fn concat3(a: &str, b: &str, c: &str) -> (r: String)
    ensures
        r@ == a@ + b@ + c@,
{
    let ab = concat_str(a, b);
    concat_str(ab.as_str(), c)
}

fn copy_level_changes(s: &State) -> (r: Option<PowerLevelChanges>)
    ensures
        level_changes_view(r) == level_changes(*s),
{
    if s.ban_level != s.original_ban_level || s.invite_level != s.original_invite_level
        || s.kick_level != s.original_kick_level || s.redact_level != s.original_redact_level
        || s.events_default_level != s.original_events_default_level || s.room_name_level
        != s.original_room_name_level || s.room_topic_level != s.original_room_topic_level
        || s.room_avatar_level != s.original_room_avatar_level {
        Some(
            PowerLevelChanges {
                ban: if s.ban_level != s.original_ban_level { Some(s.ban_level) } else { None },
                invite: if s.invite_level != s.original_invite_level { Some(s.invite_level) } else { None },
                kick: if s.kick_level != s.original_kick_level { Some(s.kick_level) } else { None },
                redact: if s.redact_level != s.original_redact_level { Some(s.redact_level) } else { None },
                events_default: if s.events_default_level != s.original_events_default_level {
                    Some(s.events_default_level)
                } else {
                    None
                },
                room_name: if s.room_name_level != s.original_room_name_level {
                    Some(s.room_name_level)
                } else {
                    None
                },
                room_topic: if s.room_topic_level != s.original_room_topic_level {
                    Some(s.room_topic_level)
                } else {
                    None
                },
                room_avatar: if s.room_avatar_level != s.original_room_avatar_level {
                    Some(s.room_avatar_level)
                } else {
                    None
                },
            },
        )
    } else {
        None
    }
}

fn strings_equal(a: &Vec<String>, b: &Vec<String>) -> (r: bool)
    ensures
        r == (strs_view(a@) == strs_view(b@)),
{
    if a.len() != b.len() {
        assert(strs_view(a@).len() != strs_view(b@).len());
        return false;
    }
    let mut i: usize = 0;
    while i < a.len()
        invariant
            a@.len() == b@.len(),
            i <= a@.len(),
            forall|k: int| 0 <= k < i ==> a@[k]@ == b@[k]@,
        decreases a@.len() - i,
    {
        if a[i] != b[i] {
            assert(strs_view(a@)[i as int] != strs_view(b@)[i as int]);
            return false;
        }
        i = i + 1;
    }
    assert(strs_view(a@) =~= strs_view(b@));
    true
}

fn changes_of(s: &State) -> (c: RoomChanges)
    ensures
        changes_to_save(*s, c),
{
    let name = if s.name != s.original_name { Some(s.name.clone()) } else { None };
    let topic = if s.topic != s.original_topic { Some(s.topic.clone()) } else { None };
    let canonical_empty = s.canonical_alias.as_str().is_empty();
    let aliases = if canonical_empty || s.canonical_alias != s.original_canonical_alias || !strings_equal(
        &s.alt_aliases,
        &s.original_alt_aliases,
    ) {
        let canonical = if canonical_empty { None } else { Some(s.canonical_alias.clone()) };
        Some((canonical, clone_string_vec(&s.alt_aliases)))
    } else {
        None
    };
    RoomChanges { name, topic, power_levels: copy_level_changes(s), aliases }
}

/// The room panel as it opens: nothing loaded, nothing typed, no error.
pub open spec fn is_initial(s: State) -> bool {
    &&& s.room_id is None
    &&& s.name@.len() == 0
    &&& s.original_name@.len() == 0
    &&& s.topic@.len() == 0
    &&& s.original_topic@.len() == 0
    &&& !s.is_loading
    &&& !s.is_saving
    &&& s.error is None
    &&& s.avatar_url is None
    &&& s.avatar_data is None
    &&& !s.is_uploading_avatar
    &&& !s.is_loading_avatar
    &&& s.membership is None
    &&& s.power_levels is None
    &&& !s.is_loading_power_levels
    &&& s.updating_power_level_for is None
    &&& s.ban_level == 0
    &&& s.original_ban_level == 0
    &&& s.invite_level == 0
    &&& s.original_invite_level == 0
    &&& s.kick_level == 0
    &&& s.original_kick_level == 0
    &&& s.redact_level == 0
    &&& s.original_redact_level == 0
    &&& s.events_default_level == 0
    &&& s.original_events_default_level == 0
    &&& s.room_name_level == 0
    &&& s.original_room_name_level == 0
    &&& s.room_topic_level == 0
    &&& s.original_room_topic_level == 0
    &&& s.room_avatar_level == 0
    &&& s.original_room_avatar_level == 0
    &&& s.invite_level_str@.len() == 0
    &&& s.kick_level_str@.len() == 0
    &&& s.ban_level_str@.len() == 0
    &&& s.redact_level_str@.len() == 0
    &&& s.events_default_level_str@.len() == 0
    &&& s.room_name_level_str@.len() == 0
    &&& s.room_topic_level_str@.len() == 0
    &&& s.room_avatar_level_str@.len() == 0
    &&& s.invite_user_id@.len() == 0
    &&& s.kick_user_id@.len() == 0
    &&& s.ban_user_id@.len() == 0
    &&& s.action_reason@.len() == 0
    &&& s.current_user_id is None
    &&& s.my_power_level == 0
    &&& s.member_filter@.len() == 0
    &&& s.notification_mode is None
    &&& !s.is_loading_notifications
    &&& s.join_rule is None
    &&& s.history_visibility is None
    &&& s.restricted_space_id@.len() == 0
    &&& s.pinned_events@.len() == 0
    &&& s.pinned_event_id_input@.len() == 0
    &&& !s.is_encrypted
    &&& s.canonical_alias@.len() == 0
    &&& s.original_canonical_alias@.len() == 0
    &&& s.alt_aliases@.len() == 0
    &&& s.original_alt_aliases@.len() == 0
    &&& s.new_alt_alias_input@.len() == 0
}

impl Default for State {
    fn default() -> (s: Self)
        ensures
            is_initial(s),
    {
        State {
            room_id: None,
            name: String::new(),
            original_name: String::new(),
            topic: String::new(),
            original_topic: String::new(),
            is_loading: false,
            is_saving: false,
            error: None,
            avatar_url: None,
            avatar_data: None,
            is_uploading_avatar: false,
            is_loading_avatar: false,
            membership: None,
            power_levels: None,
            is_loading_power_levels: false,
            updating_power_level_for: None,
            ban_level: 0,
            original_ban_level: 0,
            invite_level: 0,
            original_invite_level: 0,
            kick_level: 0,
            original_kick_level: 0,
            redact_level: 0,
            original_redact_level: 0,
            events_default_level: 0,
            original_events_default_level: 0,
            room_name_level: 0,
            original_room_name_level: 0,
            room_topic_level: 0,
            original_room_topic_level: 0,
            room_avatar_level: 0,
            original_room_avatar_level: 0,
            invite_level_str: String::new(),
            kick_level_str: String::new(),
            ban_level_str: String::new(),
            redact_level_str: String::new(),
            events_default_level_str: String::new(),
            room_name_level_str: String::new(),
            room_topic_level_str: String::new(),
            room_avatar_level_str: String::new(),
            invite_user_id: String::new(),
            kick_user_id: String::new(),
            ban_user_id: String::new(),
            action_reason: String::new(),
            current_user_id: None,
            my_power_level: 0,
            member_filter: String::new(),
            notification_mode: None,
            is_loading_notifications: false,
            join_rule: None,
            history_visibility: None,
            restricted_space_id: String::new(),
            pinned_events: Vec::new(),
            pinned_event_id_input: String::new(),
            is_encrypted: false,
            canonical_alias: String::new(),
            original_canonical_alias: String::new(),
            alt_aliases: Vec::new(),
            original_alt_aliases: Vec::new(),
            new_alt_alias_input: String::new(),
        }
    }
}

impl State {
    fn load_room(&mut self, id: String, has_engine: bool) -> (fx: Vec<Effect>)
        ensures
            load_room(*old(self), id, has_engine, *final(self), fx@),
    {
        if has_engine {
            self.room_id = Some(id.clone());
            self.is_loading = true;
            self.error = None;
            vec![Effect::LoadRoom(id)]
        } else {
            Vec::new()
        }
    }

    fn take_room(&mut self, info: RoomInfo, has_engine: bool) -> (fx: Vec<Effect>)
        ensures
            room_loaded(*old(self), info, has_engine, *final(self), fx@),
    {
        let restricted = match &info.join_rule {
            Some(JoinRule::Restricted(v)) => if v.len() > 0 {
                v[0].clone()
            } else {
                String::new()
            },
            _ => String::new(),
        };
        let canonical = match &info.canonical_alias {
            Some(a) => a.clone(),
            None => String::new(),
        };
        let fetch = info.avatar_url.is_some() && has_engine;
        self.name = info.name.clone();
        self.original_name = info.name;
        self.topic = info.topic.clone();
        self.original_topic = info.topic;
        self.membership = Some(info.membership);
        self.kick_level = info.kick_level;
        self.original_kick_level = info.kick_level;
        self.kick_level_str = i64_to_string(info.kick_level);
        self.redact_level = info.redact_level;
        self.original_redact_level = info.redact_level;
        self.redact_level_str = i64_to_string(info.redact_level);
        self.ban_level = info.ban_level;
        self.original_ban_level = info.ban_level;
        self.ban_level_str = i64_to_string(info.ban_level);
        self.invite_level = info.invite_level;
        self.original_invite_level = info.invite_level;
        self.invite_level_str = i64_to_string(info.invite_level);
        self.events_default_level = info.events_default_level;
        self.original_events_default_level = info.events_default_level;
        self.events_default_level_str = i64_to_string(info.events_default_level);
        self.room_name_level = info.room_name_level;
        self.original_room_name_level = info.room_name_level;
        self.room_name_level_str = i64_to_string(info.room_name_level);
        self.room_topic_level = info.room_topic_level;
        self.original_room_topic_level = info.room_topic_level;
        self.room_topic_level_str = i64_to_string(info.room_topic_level);
        self.room_avatar_level = info.room_avatar_level;
        self.original_room_avatar_level = info.room_avatar_level;
        self.room_avatar_level_str = i64_to_string(info.room_avatar_level);
        self.current_user_id = info.current_user_id;
        self.notification_mode = info.notification_mode;
        self.history_visibility = info.history_visibility;
        self.join_rule = info.join_rule;
        self.restricted_space_id = restricted;
        self.pinned_events = info.pinned_events;
        self.pinned_event_id_input = String::new();
        self.is_encrypted = info.is_encrypted;
        self.original_canonical_alias = canonical.clone();
        self.canonical_alias = canonical;
        self.alt_aliases = clone_string_vec(&info.alt_aliases);
        self.original_alt_aliases = info.alt_aliases;
        self.new_alt_alias_input = String::new();
        self.error = None;
        self.is_loading = false;
        let mut fx: Vec<Effect> = Vec::new();
        match info.avatar_url {
            Some(url) => {
                self.avatar_url = Some(url.clone());
                if has_engine {
                    self.is_loading_avatar = true;
                    fx.push(Effect::FetchAvatar(url));
                }
            },
            None => {
                self.avatar_url = None;
            },
        }
        fx.push(Effect::ReloadPowerLevels);
        fx
    }

    fn set_level(&mut self, f: LevelField, text: String)
        ensures
            *final(self) == with_level(
                *old(self),
                f,
                text,
                match parse_i64_spec(text@) {
                    Some(v) => v,
                    None => level_of(*old(self), f),
                },
            ),
    {
        let parsed = parse_i64(text.as_str());
        match f {
            LevelField::Ban => {
                if let Some(v) = parsed {
                    self.ban_level = v;
                }
                self.ban_level_str = text;
            },
            LevelField::Invite => {
                if let Some(v) = parsed {
                    self.invite_level = v;
                }
                self.invite_level_str = text;
            },
            LevelField::Kick => {
                if let Some(v) = parsed {
                    self.kick_level = v;
                }
                self.kick_level_str = text;
            },
            LevelField::Redact => {
                if let Some(v) = parsed {
                    self.redact_level = v;
                }
                self.redact_level_str = text;
            },
            LevelField::EventsDefault => {
                if let Some(v) = parsed {
                    self.events_default_level = v;
                }
                self.events_default_level_str = text;
            },
            LevelField::RoomName => {
                if let Some(v) = parsed {
                    self.room_name_level = v;
                }
                self.room_name_level_str = text;
            },
            LevelField::RoomTopic => {
                if let Some(v) = parsed {
                    self.room_topic_level = v;
                }
                self.room_topic_level_str = text;
            },
            LevelField::RoomAvatar => {
                if let Some(v) = parsed {
                    self.room_avatar_level = v;
                }
                self.room_avatar_level_str = text;
            },
        }
    }

    fn target(&self, has_engine: bool) -> (r: Option<String>)
        ensures
            r == target(*self, has_engine),
    {
        if has_engine {
            match &self.room_id {
                Some(id) => Some(id.clone()),
                None => None,
            }
        } else {
            None
        }
    }

    fn fail(&mut self, prefix: &str, e: &str)
        ensures
            error_is(*final(self), prefix@, e@),
            *final(self) == (State { error: final(self).error, ..*old(self) }),
    {
        self.error = Some(concat_str(prefix, e));
    }

    fn reason(&self) -> (r: Option<String>)
        ensures
            r == (if self.action_reason@.len() == 0 {
                None
            } else {
                Some(self.action_reason)
            }),
    {
        if self.action_reason.as_str().is_empty() {
            None
        } else {
            Some(self.action_reason.clone())
        }
    }

    #[verifier::rlimit(50)]
    fn update_loading(&mut self, message: Message, has_engine: bool) -> (fx: Vec<Effect>)
        requires
            message is LoadRoom || message is RoomLoaded || message is NameChanged || message is TopicChanged || message is SaveRoom || message is RoomSaved || message is DismissError || message is AvatarMediaFetched || message is SelectAvatar || message is AvatarFileSelected || message is AvatarUploaded,
        ensures
            transition(*old(self), message, has_engine, *final(self), fx@),
    {
        match message {
            Message::LoadRoom(id) => self.load_room(id, has_engine),
            Message::RoomLoaded(res) => {
                self.is_loading = false;
                match res {
                    Ok(info) => self.take_room(info, has_engine),
                    Err(e) => {
                        self.error = Some(e);
                        proof {
                            reveal_strlit("");
                        }
                        Vec::new()
                    },
                }
            },
            Message::NameChanged(n) => {
                self.name = n;
                Vec::new()
            },
            Message::TopicChanged(t) => {
                self.topic = t;
                Vec::new()
            },
            Message::SaveRoom => match self.target(has_engine) {
                Some(id) => {
                    let changes = changes_of(self);
                    self.is_saving = true;
                    self.error = None;
                    vec![Effect::SaveRoom { room_id: id, changes }]
                },
                None => Vec::new(),
            },
            Message::RoomSaved(res) => {
                self.is_saving = false;
                match res {
                    Ok(_) => {
                        self.original_name = self.name.clone();
                        self.original_topic = self.topic.clone();
                        self.original_ban_level = self.ban_level;
                        self.original_invite_level = self.invite_level;
                        self.original_kick_level = self.kick_level;
                        self.original_redact_level = self.redact_level;
                        self.original_canonical_alias = self.canonical_alias.clone();
                        self.original_alt_aliases = clone_string_vec(&self.alt_aliases);
                        self.original_events_default_level = self.events_default_level;
                        self.original_room_name_level = self.room_name_level;
                        self.original_room_topic_level = self.room_topic_level;
                        self.original_room_avatar_level = self.room_avatar_level;
                        self.error = None;
                    },
                    Err(e) => {
                        self.error = Some(e);
                    },
                }
                Vec::new()
            },
            Message::DismissError => {
                self.error = None;
                Vec::new()
            },
            Message::AvatarMediaFetched(res) => {
                self.is_loading_avatar = false;
                match res {
                    Ok(d) => {
                        self.avatar_data = Some(d);
                    },
                    Err(e) => {
                        self.fail("Failed to fetch avatar: ", e.as_str());
                    },
                }
                Vec::new()
            },
            Message::SelectAvatar => vec![Effect::PickAvatarFile],
            Message::AvatarFileSelected(p) => match p {
                Some(path) => if has_engine {
                    self.is_uploading_avatar = true;
                    let room_id = match &self.room_id {
                        Some(r) => r.clone(),
                        None => String::new(),
                    };
                    vec![Effect::UploadAvatar { room_id, path }]
                } else {
                    Vec::new()
                },
                None => Vec::new(),
            },
            Message::AvatarUploaded(res) => {
                self.is_uploading_avatar = false;
                match res {
                    Ok(_) => match &self.room_id {
                        Some(id) => {
                            let id = id.clone();
                            self.load_room(id, has_engine)
                        },
                        None => Vec::new(),
                    },
                    Err(e) => {
                        self.fail("Failed to upload avatar: ", e.as_str());
                        Vec::new()
                    },
                }
            },
            _ => Vec::new(),
        }
    }

    #[verifier::rlimit(50)]
    fn update_members(&mut self, message: Message, has_engine: bool) -> (fx: Vec<Effect>)
        requires
            message is LeaveRoom || message is RoomLeft || message is ForgetRoom || message is RoomForgotten || message is LoadPowerLevels || message is PowerLevelsLoaded || message is UpdatePowerLevel || message is PowerLevelUpdated || message is LevelChanged || message is InviteUser || message is UserInvited,
        ensures
            transition(*old(self), message, has_engine, *final(self), fx@),
    {
        match message {
            Message::LeaveRoom => match self.target(has_engine) {
                Some(id) => {
                    self.is_saving = true;
                    vec![Effect::LeaveRoom(id)]
                },
                None => Vec::new(),
            },
            Message::RoomLeft(res) => {
                self.is_saving = false;
                match res {
                    Ok(_) => match &self.room_id {
                        Some(id) => {
                            let id = id.clone();
                            self.load_room(id, has_engine)
                        },
                        None => Vec::new(),
                    },
                    Err(e) => {
                        self.fail("Failed to leave room: ", e.as_str());
                        Vec::new()
                    },
                }
            },
            Message::ForgetRoom => match self.target(has_engine) {
                Some(id) => {
                    self.is_saving = true;
                    vec![Effect::ForgetRoom(id)]
                },
                None => Vec::new(),
            },
            Message::RoomForgotten(res) => {
                self.is_saving = false;
                match res {
                    Ok(_) => vec![Effect::CloseSettings],
                    Err(e) => {
                        self.fail("Failed to forget room: ", e.as_str());
                        Vec::new()
                    },
                }
            },
            Message::LoadPowerLevels => match self.target(has_engine) {
                Some(id) => {
                    self.is_loading_power_levels = true;
                    vec![Effect::LoadPowerLevels(id)]
                },
                None => Vec::new(),
            },
            Message::PowerLevelsLoaded(res) => {
                self.is_loading_power_levels = false;
                match res {
                    Ok(info) => {
                        self.power_levels = Some((info.default_level, info.users));
                        self.my_power_level = info.my_level;
                    },
                    Err(e) => {
                        self.fail("Failed to load power levels: ", e.as_str());
                    },
                }
                Vec::new()
            },
            Message::UpdatePowerLevel(user, level) => match self.target(has_engine) {
                Some(id) => {
                    self.updating_power_level_for = Some(user.clone());
                    vec![Effect::UpdatePowerLevel { room_id: id, user_id: user, level }]
                },
                None => Vec::new(),
            },
            Message::PowerLevelUpdated(user, res) => {
                self.updating_power_level_for = None;
                match res {
                    Ok(_) => {
                        self.invite_user_id = String::new();
                        vec![Effect::ReloadPowerLevels]
                    },
                    Err(e) => {
                        let m = concat3("Failed to update power level for ", user.as_str(), ": ");
                        self.fail(m.as_str(), e.as_str());
                        Vec::new()
                    },
                }
            },
            Message::LevelChanged(f, text) => {
                self.set_level(f, text);
                Vec::new()
            },
            Message::InviteUser => match self.target(has_engine) {
                Some(id) => vec![Effect::InviteUser { room_id: id, user_id: self.invite_user_id.clone() }],
                None => Vec::new(),
            },
            Message::UserInvited(res) => match res {
                Ok(_) => {
                    self.invite_user_id = String::new();
                    self.error = None;
                    vec![Effect::ReloadPowerLevels]
                },
                Err(e) => {
                    self.fail("Failed to invite user: ", e.as_str());
                    Vec::new()
                },
            },
            _ => Vec::new(),
        }
    }

    #[verifier::rlimit(50)]
    fn update_moderation(&mut self, message: Message, has_engine: bool) -> (fx: Vec<Effect>)
        requires
            message is KickUser || message is UserKicked || message is BanUser || message is UserBanned || message is InviteUserIdChanged || message is ActionReasonChanged || message is MemberFilterChanged || message is NotificationModeChanged || message is NotificationModeSet || message is JoinRuleChanged || message is HistoryVisibilityChanged,
        ensures
            transition(*old(self), message, has_engine, *final(self), fx@),
    {
        match message {
            Message::KickUser(user) => match self.target(has_engine) {
                Some(id) => vec![Effect::KickUser { room_id: id, user_id: user, reason: self.reason() }],
                None => Vec::new(),
            },
            Message::UserKicked(user, res) => match res {
                Ok(_) => {
                    self.action_reason = String::new();
                    self.error = None;
                    vec![Effect::ReloadPowerLevels]
                },
                Err(e) => {
                    let m = concat3("Failed to kick ", user.as_str(), ": ");
                    self.fail(m.as_str(), e.as_str());
                    Vec::new()
                },
            },
            Message::BanUser(user) => match self.target(has_engine) {
                Some(id) => vec![Effect::BanUser { room_id: id, user_id: user, reason: self.reason() }],
                None => Vec::new(),
            },
            Message::UserBanned(user, res) => match res {
                Ok(_) => {
                    self.action_reason = String::new();
                    self.error = None;
                    vec![Effect::ReloadPowerLevels]
                },
                Err(e) => {
                    let m = concat3("Failed to ban ", user.as_str(), ": ");
                    self.fail(m.as_str(), e.as_str());
                    Vec::new()
                },
            },
            Message::InviteUserIdChanged(v) => {
                self.invite_user_id = v;
                Vec::new()
            },
            Message::ActionReasonChanged(v) => {
                self.action_reason = v;
                Vec::new()
            },
            Message::MemberFilterChanged(v) => {
                self.member_filter = v;
                Vec::new()
            },
            Message::NotificationModeChanged(mode) => match self.target(has_engine) {
                Some(id) => {
                    self.is_loading_notifications = true;
                    self.notification_mode = Some(mode);
                    vec![Effect::SetNotificationMode { room_id: id, mode }]
                },
                None => Vec::new(),
            },
            Message::NotificationModeSet(res) => {
                self.is_loading_notifications = false;
                if let Err(e) = res {
                    self.error = Some(e);
                    proof {
                        reveal_strlit("");
                    }
                }
                Vec::new()
            },
            Message::JoinRuleChanged(j) => {
                let target = self.target(has_engine);
                let copy = j.clone();
                self.join_rule = Some(j);
                match target {
                    Some(id) => vec![Effect::SetJoinRule { room_id: id, join_rule: copy }],
                    None => Vec::new(),
                }
            },
            Message::HistoryVisibilityChanged(v) => match self.target(has_engine) {
                Some(id) => vec![Effect::SetHistoryVisibility { room_id: id, visibility: v }],
                None => Vec::new(),
            },
            _ => Vec::new(),
        }
    }

    #[verifier::rlimit(50)]
    fn update_pins_and_aliases(&mut self, message: Message, has_engine: bool) -> (fx: Vec<Effect>)
        requires
            message is RestrictedSpaceIdChanged || message is PinnedEventIdChanged || message is PinEvent || message is UnpinEvent || message is EnableEncryption || message is EncryptionEnabled || message is CanonicalAliasChanged || message is AltAliasAdded || message is AltAliasRemoved || message is NewAltAliasInputChanged,
        ensures
            transition(*old(self), message, has_engine, *final(self), fx@),
    {
        match message {
            Message::RestrictedSpaceIdChanged(v) => {
                self.restricted_space_id = v;
                Vec::new()
            },
            Message::PinnedEventIdChanged(v) => {
                self.pinned_event_id_input = v;
                Vec::new()
            },
            Message::PinEvent(parsed) => match self.target(has_engine) {
                Some(id) => match parsed {
                    Ok(ev) => {
                        if contains_string(&self.pinned_events, &ev) {
                            Vec::new()
                        } else {
                            let mut pinned = clone_string_vec(&self.pinned_events);
                            let ghost before = strs_view(pinned@);
                            pinned.push(ev);
                            assert(strs_view(pinned@) =~= before.push(ev@));
                            vec![Effect::SetPinnedEvents { room_id: id, pinned }]
                        }
                    },
                    Err(e) => {
                        self.fail("Invalid Event ID: ", e.as_str());
                        Vec::new()
                    },
                },
                None => Vec::new(),
            },
            Message::UnpinEvent(ev) => match self.target(has_engine) {
                Some(id) => {
                    let pinned = without_string(&self.pinned_events, &ev);
                    vec![Effect::SetPinnedEvents { room_id: id, pinned }]
                },
                None => Vec::new(),
            },
            Message::EnableEncryption => match self.target(has_engine) {
                Some(id) => vec![Effect::EnableEncryption(id)],
                None => Vec::new(),
            },
            Message::EncryptionEnabled(res) => match res {
                Ok(_) => match &self.room_id {
                    Some(id) => {
                        let id = id.clone();
                        self.load_room(id, has_engine)
                    },
                    None => Vec::new(),
                },
                Err(e) => {
                    self.fail("Failed to enable encryption: ", e.as_str());
                    Vec::new()
                },
            },
            Message::CanonicalAliasChanged(v) => {
                self.canonical_alias = v;
                Vec::new()
            },
            Message::AltAliasAdded => {
                let alias = trim_str(self.new_alt_alias_input.as_str()).to_owned();
                if !alias.as_str().is_empty() && !contains_string(&self.alt_aliases, &alias) {
                    let ghost before = strs_view(self.alt_aliases@);
                    self.alt_aliases.push(alias);
                    assert(strs_view(self.alt_aliases@) =~= before.push(trim_text(old(self).new_alt_alias_input@)));
                }
                self.new_alt_alias_input = String::new();
                Vec::new()
            },
            Message::AltAliasRemoved(a) => {
                self.alt_aliases = without_string(&self.alt_aliases, &a);
                Vec::new()
            },
            Message::NewAltAliasInputChanged(v) => {
                self.new_alt_alias_input = v;
                Vec::new()
            },

            _ => Vec::new(),
        }
    }

    /// Handles one message; `has_engine` tells whether there is a Matrix
    /// engine. Returns what the application is to do (see `transition`).
    pub fn update(&mut self, message: Message, has_engine: bool) -> (fx: Vec<Effect>)
        ensures
            transition(*old(self), message, has_engine, *final(self), fx@),
    {
        match &message {
            Message::LoadRoom(..)
            | Message::RoomLoaded(..)
            | Message::NameChanged(..)
            | Message::TopicChanged(..)
            | Message::SaveRoom
            | Message::RoomSaved(..)
            | Message::DismissError
            | Message::AvatarMediaFetched(..)
            | Message::SelectAvatar
            | Message::AvatarFileSelected(..)
            | Message::AvatarUploaded(..)
            => self.update_loading(message, has_engine),
            Message::LeaveRoom
            | Message::RoomLeft(..)
            | Message::ForgetRoom
            | Message::RoomForgotten(..)
            | Message::LoadPowerLevels
            | Message::PowerLevelsLoaded(..)
            | Message::UpdatePowerLevel(..)
            | Message::PowerLevelUpdated(..)
            | Message::LevelChanged(..)
            | Message::InviteUser
            | Message::UserInvited(..)
            => self.update_members(message, has_engine),
            Message::KickUser(..)
            | Message::UserKicked(..)
            | Message::BanUser(..)
            | Message::UserBanned(..)
            | Message::InviteUserIdChanged(..)
            | Message::ActionReasonChanged(..)
            | Message::MemberFilterChanged(..)
            | Message::NotificationModeChanged(..)
            | Message::NotificationModeSet(..)
            | Message::JoinRuleChanged(..)
            | Message::HistoryVisibilityChanged(..)
            => self.update_moderation(message, has_engine),
            Message::RestrictedSpaceIdChanged(..)
            | Message::PinnedEventIdChanged(..)
            | Message::PinEvent(..)
            | Message::UnpinEvent(..)
            | Message::EnableEncryption
            | Message::EncryptionEnabled(..)
            | Message::CanonicalAliasChanged(..)
            | Message::AltAliasAdded
            | Message::AltAliasRemoved(..)
            | Message::NewAltAliasInputChanged(..)
            => self.update_pins_and_aliases(message, has_engine),
        }
    }
}


/// The permission section's controls: which join rule and history
/// visibility buttons show as selected (a selected button does nothing),
/// and which room the "Restricted" and "Apply" buttons restrict the room to.
pub struct PermissionControls {
    pub public_selected: bool,
    pub invite_selected: bool,
    pub knock_selected: bool,
    pub restricted_selected: bool,
    /// Pressing "Restricted" restricts the room to this space: when the room
    /// is not restricted yet and the typed space id is a room id.
    pub restrict_to: Option<String>,
    pub shared_selected: bool,
    pub invited_selected: bool,
    pub joined_selected: bool,
    /// The row to type a space id shows: the room is restricted or an id is
    /// typed.
    pub show_space_row: bool,
    /// The "Apply" button restricts the room to the typed space: when it is a
    /// room id that the current rule does not already allow.
    pub apply_to: Option<String>,
}

/// The current join rule allows members of the room `id`.
pub open spec fn allows_space(j: Option<JoinRule>, id: Seq<char>) -> bool {
    j matches Some(JoinRule::Restricted(allow)) && strs_view(allow@).contains(id)
}

impl State {
    /// The permission section's controls; `typed_id_is_room_id` tells
    /// whether the typed space id reads as a room id.
    pub fn permission_controls(&self, typed_id_is_room_id: bool) -> (c: PermissionControls)
        ensures
            c.public_selected == (self.join_rule matches Some(JoinRule::Public)),
            c.invite_selected == (self.join_rule matches Some(JoinRule::Invite)),
            c.knock_selected == (self.join_rule matches Some(JoinRule::Knock)),
            c.restricted_selected == (self.join_rule matches Some(JoinRule::Restricted(_))),
            match c.restrict_to {
                Some(id) => !c.restricted_selected && typed_id_is_room_id && id@ == self.restricted_space_id@,
                None => c.restricted_selected || !typed_id_is_room_id,
            },
            c.shared_selected == (self.history_visibility matches Some(HistoryVisibility::Shared)),
            c.invited_selected == (self.history_visibility matches Some(HistoryVisibility::Invited)),
            c.joined_selected == (self.history_visibility matches Some(HistoryVisibility::Joined)),
            c.show_space_row == (c.restricted_selected || self.restricted_space_id@.len() != 0),
            match c.apply_to {
                Some(id) => c.show_space_row && typed_id_is_room_id && id@ == self.restricted_space_id@
                    && !allows_space(self.join_rule, self.restricted_space_id@),
                None => !c.show_space_row || !typed_id_is_room_id || allows_space(
                    self.join_rule,
                    self.restricted_space_id@,
                ),
            },
    {
        let (public_selected, invite_selected, knock_selected, restricted_selected, allowed) = match &self.join_rule {
            Some(JoinRule::Public) => (true, false, false, false, false),
            Some(JoinRule::Invite) => (false, true, false, false, false),
            Some(JoinRule::Knock) => (false, false, true, false, false),
            Some(JoinRule::Restricted(allow)) => (false, false, false, true, contains_string(allow, &self.restricted_space_id)),
            _ => (false, false, false, false, false),
        };
        let (shared_selected, invited_selected, joined_selected) = match &self.history_visibility {
            Some(HistoryVisibility::Shared) => (true, false, false),
            Some(HistoryVisibility::Invited) => (false, true, false),
            Some(HistoryVisibility::Joined) => (false, false, true),
            _ => (false, false, false),
        };
        let restrict_to = if !restricted_selected && typed_id_is_room_id {
            Some(self.restricted_space_id.clone())
        } else {
            None
        };
        let show_space_row = restricted_selected || !self.restricted_space_id.as_str().is_empty();
        let apply_to = if show_space_row && typed_id_is_room_id && !allowed {
            Some(self.restricted_space_id.clone())
        } else {
            None
        };
        PermissionControls {
            public_selected,
            invite_selected,
            knock_selected,
            restricted_selected,
            restrict_to,
            shared_selected,
            invited_selected,
            joined_selected,
            show_space_row,
            apply_to,
        }
    }
}


/// One member of the room as the member section lists it, with the
/// controls that respond.
pub struct MemberRow {
    pub user_id: String,
    pub level: i64,
    /// The "Default" (0), "Mod" (50) and "Admin" (100) buttons respond: no
    /// change of this member's level is under way and the member is not at
    /// that level already.
    pub can_set_default: bool,
    pub can_set_moderator: bool,
    pub can_set_admin: bool,
    /// The "Kick" and "Ban" buttons show: not for oneself, and only with a
    /// power level at least the one the action needs.
    pub can_kick: bool,
    pub can_ban: bool,
}

/// Whether the member filter (already lowercased) keeps a user id.
pub open spec fn member_shown(user_id: Seq<char>, filter: Seq<char>) -> bool {
    filter.len() == 0 || contains_ignore_ascii_case_spec(user_id, filter, None)
}

/// The members the filter keeps, in order.
pub open spec fn shown_members(users: Seq<(String, i64)>, filter: Seq<char>) -> Seq<(String, i64)>
    decreases users.len(),
{
    if users.len() == 0 {
        Seq::empty()
    } else {
        let rest = shown_members(users.drop_last(), filter);
        if member_shown(users.last().0@, filter) {
            rest.push(users.last())
        } else {
            rest
        }
    }
}

/// A level button for `target` responds for a member at `level`.
pub open spec fn level_button_responds(s: State, user_id: Seq<char>, level: i64, target: i64) -> bool {
    !(s.updating_power_level_for matches Some(u) && u@ == user_id) && level != target
}

/// The row listed for a member.
pub open spec fn member_row_matches(s: State, r: MemberRow, m: (String, i64)) -> bool {
    let is_me = s.current_user_id matches Some(u) && u@ == m.0@;
    &&& r.user_id@ == m.0@
    &&& r.level == m.1
    &&& r.can_set_default == level_button_responds(s, m.0@, m.1, 0)
    &&& r.can_set_moderator == level_button_responds(s, m.0@, m.1, 50)
    &&& r.can_set_admin == level_button_responds(s, m.0@, m.1, 100)
    &&& r.can_kick == (!is_me && s.my_power_level >= s.kick_level)
    &&& r.can_ban == (!is_me && s.my_power_level >= s.ban_level)
}

/// Whether an optional string holds `s`.
fn holds(o: &Option<String>, s: &str) -> (r: bool)
    ensures
        r == (o matches Some(x) && x@ == s@),
{
    match o {
        Some(x) => str_eq(x.as_str(), s),
        None => false,
    }
}

impl State {
    /// The rows of the member section: none before the power levels are
    /// loaded; else the members the filter keeps, in order.
    pub fn member_rows(&self) -> (rows: Option<Vec<MemberRow>>)
        ensures
            match self.power_levels {
                None => rows is None,
                Some((_, users)) => rows matches Some(v) && {
                    let shown = shown_members(users@, unicode_lowercase(self.member_filter@));
                    &&& v@.len() == shown.len()
                    &&& forall|i: int| 0 <= i < v@.len() ==> member_row_matches(*self, #[trigger] v@[i], shown[i])
                },
            },
    {
        let users = match &self.power_levels {
            Some((_, users)) => users,
            None => return None,
        };
        let filter = str_to_lowercase(self.member_filter.as_str());
        let ghost us = users@;
        let mut rows: Vec<MemberRow> = Vec::new();
        let mut i: usize = 0;
        while i < users.len()
            invariant
                i <= users@.len(),
                us == users@,
                self.power_levels matches Some((_, u)) && u@ == us,
                filter@ == unicode_lowercase(self.member_filter@),
                rows@.len() == shown_members(us.take(i as int), filter@).len(),
                forall|k: int|
                    0 <= k < rows@.len() ==> member_row_matches(
                        *self,
                        #[trigger] rows@[k],
                        shown_members(us.take(i as int), filter@)[k],
                    ),
            decreases users@.len() - i,
        {
            proof {
                assert(us.take(i + 1).drop_last() =~= us.take(i as int));
                assert(us.take(i + 1).last() == us[i as int]);
            }
            let user_id = users[i].0.as_str();
            let level = users[i].1;
            if filter.as_str().is_empty() || contains_ignore_ascii_case(user_id, filter.as_str(), None) {
                let updating = holds(&self.updating_power_level_for, user_id);
                let is_me = holds(&self.current_user_id, user_id);
                let row = MemberRow {
                    user_id: users[i].0.clone(),
                    level,
                    can_set_default: !updating && level != 0,
                    can_set_moderator: !updating && level != 50,
                    can_set_admin: !updating && level != 100,
                    can_kick: !is_me && self.my_power_level >= self.kick_level,
                    can_ban: !is_me && self.my_power_level >= self.ban_level,
                };
                rows.push(row);
            }
            i = i + 1;
        }
        proof {
            assert(us.take(us.len() as int) =~= us);
        }
        Some(rows)
    }
}


/// The invite and promote controls.
pub struct InviteControls {
    /// The "Invite" button shows: the user's power level allows inviting.
    pub show_invite: bool,
    /// The buttons respond (invite, make moderator, make admin): a user id
    /// is typed (not blank); else they explain that one is needed.
    pub enabled: bool,
}

impl State {
    /// The invite and promote controls for the typed user id.
    pub fn invite_controls(&self) -> (c: InviteControls)
        ensures
            c.show_invite == (self.my_power_level >= self.invite_level),
            c.enabled == (trim_text(self.invite_user_id@).len() != 0),
    {
        let typed = trim_str(self.invite_user_id.as_str());
        InviteControls { show_invite: self.my_power_level >= self.invite_level, enabled: !typed.is_empty() }
    }
}

} // verus!
