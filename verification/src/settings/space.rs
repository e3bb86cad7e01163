//! The space settings panel: what each message does to the panel's state,
//! and which requests to the homeserver (or dialogs) it starts.
use vstd::prelude::*;
use crate::rooms::{JoinRule, JoinRuleView, RoomData, RoomDataView, RoomTextMap, first_room_from, rooms_view, clone_opt_string};
use crate::space::{contains_string, strs_view};
use crate::summary::{is_blank, is_blank_str};
use crate::text::{concat_str, contains_ignore_ascii_case, contains_ignore_ascii_case_spec, str_eq, str_to_lowercase, unicode_lowercase};

verus! {

/// Whether a room is listed in the server's public directory.
#[derive(Debug, Clone, PartialEq, Eq)]
pub enum RoomVisibility {
    Public,
    Private,
    /// A visibility this client does not know.
    Other(String),
}

/// What loading a space reports.
pub struct SpaceInfo {
    pub name: String,
    pub topic: String,
    pub canonical_alias: Option<String>,
    pub avatar_url: Option<String>,
    pub visibility: RoomVisibility,
    pub join_rule: JoinRule,
}

/// The space settings panel.
pub struct State {
    pub space_id: Option<String>,
    pub name: String,
    pub original_name: String,
    pub canonical_alias: String,
    pub original_canonical_alias: String,
    pub is_loading: bool,
    pub is_saving: bool,
    pub error: Option<String>,
    pub children: Vec<RoomData>,
    pub is_loading_children: bool,
    pub new_child_id: String,
    pub new_child_order: String,
    /// Orders typed for children, not saved yet, by child id.
    pub pending_child_orders: RoomTextMap,
    pub is_adding_child: bool,
    pub topic: String,
    pub original_topic: String,
    pub avatar_url: Option<String>,
    /// The avatar's image data, once fetched.
    pub avatar_data: Option<Vec<u8>>,
    pub is_uploading_avatar: bool,
    pub is_loading_avatar: bool,
    pub is_public: bool,
    pub original_is_public: bool,
    pub is_invite_only: bool,
    pub original_is_invite_only: bool,
    pub child_filter: String,
}

/// What the user or the homeserver told the panel.
pub enum Message {
    LoadSpace(String),
    SpaceLoaded(Result<SpaceInfo, String>),
    IsPublicChanged(bool),
    IsInviteOnlyChanged(bool),
    NameChanged(String),
    TopicChanged(String),
    CanonicalAliasChanged(String),
    SaveSpace,
    SpaceSaved(Result<(), String>),
    DismissError,
    LoadChildren,
    ChildrenLoaded(Result<Vec<RoomData>, String>),
    AddChild,
    ChildAdded(Result<(), String>),
    RemoveChild(String),
    ChildRemoved(String, Result<(), String>),
    NewChildIdChanged(String),
    NewChildOrderChanged(String),
    ChildOrderInputChanged(String, String),
    SaveChildOrder(String),
    ChildOrderSaved(Result<(), String>),
    ToggleChildSuggested(String, bool),
    ChildSuggestedToggled(Result<(), String>),
    AvatarMediaFetched(Result<Vec<u8>, String>),
    SelectAvatar,
    /// The file picked for the avatar, if any.
    AvatarFileSelected(Option<String>),
    AvatarUploaded(Result<(), String>),
    SetChildJoinRule(String, JoinRule),
    ChildFilterChanged(String),
}

/// What saving the panel sends, in this order; `None` sends nothing of a
/// part. The alias is `None` inside when it is to be removed.
pub struct SpaceChanges {
    pub name: Option<String>,
    pub topic: Option<String>,
    pub canonical_alias: Option<Option<String>>,
    /// Listed in the public directory or not.
    pub public: Option<bool>,
    /// Joined by invite only, or public.
    pub invite_only: Option<bool>,
}

/// What the application is to do for the panel.
pub enum Effect {
    /// Load the space (answered by `SpaceLoaded`).
    LoadSpace(String),
    /// Fetch the avatar image (answered by `AvatarMediaFetched`).
    FetchAvatar(String),
    /// Send `LoadChildren` to the panel.
    ReloadChildren,
    /// Answered by `ChildrenLoaded`.
    LoadChildren(String),
    /// Answered by `SpaceSaved`.
    SaveSpace { space_id: String, changes: SpaceChanges },
    /// List a child (answered by `ChildAdded`).
    AddChild { space_id: String, child_id: String, order: Option<String> },
    /// List a child again with a new order (answered by `ChildOrderSaved`).
    SaveChildOrder { space_id: String, child_id: String, order: Option<String> },
    /// List a child again with its order and the suggested flag (answered
    /// by `ChildSuggestedToggled`).
    SetChildSuggested { space_id: String, child_id: String, order: Option<String>, suggested: bool },
    /// Answered by `ChildRemoved`.
    RemoveChild { space_id: String, child_id: String },
    /// On success the children are reloaded; a failure is reported as a
    /// failed save (`SpaceSaved`).
    SetChildJoinRule { room_id: String, join_rule: JoinRule },
    /// Ask for an image file (answered by `AvatarFileSelected`).
    PickAvatarFile,
    /// Answered by `AvatarUploaded`.
    UploadAvatar { room_id: String, path: String },
}

/// The error the panel shows after `prefix` and the reason `e`.
pub open spec fn error_is(s: State, prefix: Seq<char>, e: Seq<char>) -> bool {
    s.error matches Some(m) && m@ == prefix + e
}

/// The space to act on, when there is an engine and a space.
pub open spec fn target(s: State, engine: bool) -> Option<String> {
    if engine {
        s.space_id
    } else {
        None
    }
}

/// An order as sent: none when it is blank.
pub open spec fn order_to_send(o: String) -> Option<String> {
    if is_blank(o@) {
        None
    } else {
        Some(o)
    }
}

/// What saving the panel `s` sends (see `SpaceChanges`).
pub open spec fn changes_to_save(s: State, c: SpaceChanges) -> bool {
    &&& c.name == (if s.name@ != s.original_name@ { Some(s.name) } else { None })
    &&& c.topic == (if s.topic@ != s.original_topic@ { Some(s.topic) } else { None })
    &&& c.canonical_alias == (if s.canonical_alias@ != s.original_canonical_alias@ {
        Some(if s.canonical_alias@.len() == 0 { None } else { Some(s.canonical_alias) })
    } else {
        None
    })
    &&& c.public == (if s.is_public != s.original_is_public { Some(s.is_public) } else { None })
    &&& c.invite_only == (if s.is_invite_only != s.original_is_invite_only {
        Some(s.is_invite_only)
    } else {
        None
    })
}

/// What loading the space `id` does (when there is an engine).
pub open spec fn load_space(pre: State, id: String, engine: bool, post: State, fx: Seq<Effect>) -> bool {
    if engine {
        &&& post == (State { space_id: Some(id), is_loading: true, error: None, ..pre })
        &&& fx =~= seq![Effect::LoadSpace(id)]
    } else {
        post == pre && fx.len() == 0
    }
}

/// What a finished request does: on success the children are reloaded (and
/// `ok` holds of the state); on failure the error shows `prefix` and the
/// reason, nothing else changes, and nothing is asked.
pub open spec fn then_reload(pre: State, res: Result<(), String>, prefix: Seq<char>, post: State, fx: Seq<Effect>) -> bool {
    match res {
        Ok(_) => post == pre && fx =~= seq![Effect::ReloadChildren],
        Err(e) => error_is(post, prefix, e@) && post == (State { error: post.error, ..pre }) && fx.len()
            == 0,
    }
}

/// The order a child is listed with, among the children loaded.
pub open spec fn child_order(s: State, child: Seq<char>) -> Option<Seq<char>> {
    match first_room_from(rooms_view(s.children@), child, 0) {
        Some(i) => rooms_view(s.children@)[i].order,
        None => None,
    }
}

/// The transitions of the panel: `post` and the effects `fx` are what
/// handling `m` in `pre` gives, `engine` telling whether there is a Matrix
/// engine.
pub open spec fn transition(pre: State, m: Message, engine: bool, post: State, fx: Seq<Effect>) -> bool {
    match m {
        Message::LoadSpace(id) => load_space(pre, id, engine, post, fx),
        Message::SpaceLoaded(res) => match res {
            Ok(info) => {
                let fetch = info.avatar_url is Some && engine;
                &&& post.canonical_alias@ == match info.canonical_alias {
                    Some(a) => a@,
                    None => Seq::empty(),
                }
                &&& post.original_canonical_alias@ == post.canonical_alias@
                &&& post == (State {
                    is_loading: false,
                    name: info.name,
                    original_name: info.name,
                    topic: info.topic,
                    original_topic: info.topic,
                    canonical_alias: post.canonical_alias,
                    original_canonical_alias: post.original_canonical_alias,
                    avatar_url: info.avatar_url,
                    is_public: info.visibility == RoomVisibility::Public,
                    original_is_public: info.visibility == RoomVisibility::Public,
                    is_invite_only: info.join_rule == JoinRule::Invite,
                    original_is_invite_only: info.join_rule == JoinRule::Invite,
                    error: None,
                    is_loading_avatar: pre.is_loading_avatar || fetch,
                    ..pre
                })
                &&& fx =~= if fetch {
                    seq![Effect::FetchAvatar(info.avatar_url->0), Effect::ReloadChildren]
                } else {
                    seq![Effect::ReloadChildren]
                }
            },
            Err(e) => error_is(post, Seq::empty(), e@) && post == (State {
                is_loading: false,
                error: post.error,
                ..pre
            }) && fx.len() == 0,
        },
        Message::IsPublicChanged(b) => post == (State { is_public: b, ..pre }) && fx.len() == 0,
        Message::IsInviteOnlyChanged(b) => post == (State { is_invite_only: b, ..pre }) && fx.len() == 0,
        Message::NameChanged(n) => post == (State { name: n, ..pre }) && fx.len() == 0,
        Message::TopicChanged(t) => post == (State { topic: t, ..pre }) && fx.len() == 0,
        Message::CanonicalAliasChanged(a) => post == (State { canonical_alias: a, ..pre }) && fx.len() == 0,
        Message::SaveSpace => match target(pre, engine) {
            Some(id) => post == (State { is_saving: true, error: None, ..pre }) && fx.len() == 1 && (
            fx[0] matches Effect::SaveSpace { space_id, changes } && space_id == id && changes_to_save(
                pre,
                changes,
            )),
            None => post == pre && fx.len() == 0,
        },
        Message::SpaceSaved(res) => fx.len() == 0 && match res {
            Ok(_) => post == (State {
                is_saving: false,
                original_name: pre.name,
                original_topic: pre.topic,
                original_canonical_alias: pre.canonical_alias,
                original_is_public: pre.is_public,
                original_is_invite_only: pre.is_invite_only,
                error: None,
                ..pre
            }),
            Err(e) => error_is(post, Seq::empty(), e@) && post == (State {
                is_saving: false,
                error: post.error,
                ..pre
            }),
        },
        Message::DismissError => post == (State { error: None, ..pre }) && fx.len() == 0,
        Message::LoadChildren => match target(pre, engine) {
            Some(id) => post == (State { is_loading_children: true, ..pre }) && fx =~= seq![
                Effect::LoadChildren(id),
            ],
            None => post == pre && fx.len() == 0,
        },
        Message::ChildrenLoaded(res) => fx.len() == 0 && match res {
            Ok(c) => post == (State { is_loading_children: false, children: c, ..pre }),
            Err(e) => error_is(post, "Failed to load space children: "@, e@) && post == (State {
                is_loading_children: false,
                error: post.error,
                ..pre
            }),
        },
        Message::AddChild => match target(pre, engine) {
            Some(id) => post == (State { is_adding_child: true, ..pre }) && fx =~= seq![
                Effect::AddChild {
                    space_id: id,
                    child_id: pre.new_child_id,
                    order: order_to_send(pre.new_child_order),
                },
            ],
            None => post == pre && fx.len() == 0,
        },
        Message::ChildAdded(res) => {
            let mid = State { is_adding_child: false, ..pre };
            match res {
                Ok(_) => post.new_child_id@.len() == 0 && post.new_child_order@.len() == 0 && post == (
                State {
                    new_child_id: post.new_child_id,
                    new_child_order: post.new_child_order,
                    ..mid
                }) && fx =~= seq![Effect::ReloadChildren],
                Err(e) => then_reload(mid, Err(e), "Failed to add child: "@, post, fx),
            }
        },
        Message::RemoveChild(child) => match target(pre, engine) {
            Some(id) => post == pre && fx =~= seq![Effect::RemoveChild { space_id: id, child_id: child }],
            None => post == pre && fx.len() == 0,
        },
        Message::ChildRemoved(_, res) => then_reload(pre, res, "Failed to remove child: "@, post, fx),
        Message::NewChildIdChanged(v) => post == (State { new_child_id: v, ..pre }) && fx.len() == 0,
        Message::NewChildOrderChanged(v) => post == (State { new_child_order: v, ..pre }) && fx.len() == 0,
        Message::ChildOrderInputChanged(child, order) => fx.len() == 0
            && post.pending_child_orders@ == pre.pending_child_orders@.insert(child@, order@) && post
            == (State { pending_child_orders: post.pending_child_orders, ..pre }),
        Message::SaveChildOrder(child) => post == pre && match target(pre, engine) {
            Some(id) => if pre.pending_child_orders@.dom().contains(child@) {
                let o = pre.pending_child_orders@[child@];
                fx.len() == 1 && (fx[0] matches Effect::SaveChildOrder { space_id, child_id, order }
                    && space_id == id && child_id == child && (order matches Some(x) ==> x@ == o)
                    && (order is None <==> is_blank(o)))
            } else {
                fx.len() == 0
            },
            None => fx.len() == 0,
        },
        Message::ChildOrderSaved(res) => then_reload(pre, res, "Failed to update child order: "@, post, fx),
        Message::ToggleChildSuggested(child, suggested) => post == pre && match target(pre, engine) {
            Some(id) => fx.len() == 1 && (fx[0] matches Effect::SetChildSuggested {
                space_id,
                child_id,
                order,
                suggested: s,
            } && space_id == id && child_id == child && s == suggested && match order {
                Some(x) => child_order(pre, child@) == Some(x@),
                None => child_order(pre, child@) is None,
            }),
            None => fx.len() == 0,
        },
        Message::ChildSuggestedToggled(res) => then_reload(
            pre,
            res,
            "Failed to update suggested status: "@,
            post,
            fx,
        ),
        Message::AvatarMediaFetched(res) => fx.len() == 0 && match res {
            Ok(d) => post == (State { is_loading_avatar: false, avatar_data: Some(d), ..pre }),
            Err(e) => error_is(post, "Failed to fetch avatar: "@, e@) && post == (State {
                is_loading_avatar: false,
                error: post.error,
                ..pre
            }),
        },
        Message::SelectAvatar => post == pre && fx =~= seq![Effect::PickAvatarFile],
        Message::AvatarFileSelected(p) => match p {
            Some(path) => if engine {
                post == (State { is_uploading_avatar: true, ..pre }) && fx.len() == 1 && (
                fx[0] matches Effect::UploadAvatar { room_id, path: q } && q == path && room_id@
                    == match pre.space_id {
                    Some(r) => r@,
                    None => Seq::empty(),
                })
            } else {
                post == pre && fx.len() == 0
            },
            None => post == pre && fx.len() == 0,
        },
        Message::AvatarUploaded(res) => {
            let mid = State { is_uploading_avatar: false, ..pre };
            match res {
                Ok(_) => match pre.space_id {
                    Some(id) => load_space(mid, id, engine, post, fx),
                    None => post == mid && fx.len() == 0,
                },
                Err(e) => error_is(post, "Failed to upload avatar: "@, e@) && post == (State {
                    error: post.error,
                    ..mid
                }) && fx.len() == 0,
            }
        },
        Message::SetChildJoinRule(room, j) => post == pre && if engine {
            fx =~= seq![Effect::SetChildJoinRule { room_id: room, join_rule: j }]
        } else {
            fx.len() == 0
        },
        Message::ChildFilterChanged(f) => post == (State { child_filter: f, ..pre }) && fx.len() == 0,
    }
}

fn changes_of(s: &State) -> (c: SpaceChanges)
    ensures
        changes_to_save(*s, c),
{
    SpaceChanges {
        name: if s.name != s.original_name { Some(s.name.clone()) } else { None },
        topic: if s.topic != s.original_topic { Some(s.topic.clone()) } else { None },
        canonical_alias: if s.canonical_alias != s.original_canonical_alias {
            Some(
                if s.canonical_alias.as_str().is_empty() {
                    None
                } else {
                    Some(s.canonical_alias.clone())
                },
            )
        } else {
            None
        },
        public: if s.is_public != s.original_is_public { Some(s.is_public) } else { None },
        invite_only: if s.is_invite_only != s.original_is_invite_only {
            Some(s.is_invite_only)
        } else {
            None
        },
    }
}

fn order_for_sending(o: &String) -> (r: Option<String>)
    ensures
        r == order_to_send(*o),
{
    if is_blank_str(o.as_str()) {
        None
    } else {
        Some(o.clone())
    }
}

fn find_child_order(children: &Vec<RoomData>, child: &str) -> (r: Option<String>)
    ensures
        match r {
            Some(x) => match first_room_from(rooms_view(children@), child@, 0) {
                Some(i) => rooms_view(children@)[i].order == Some(x@),
                None => false,
            },
            None => match first_room_from(rooms_view(children@), child@, 0) {
                Some(i) => rooms_view(children@)[i].order is None,
                None => true,
            },
        },
{
    let ghost rs = rooms_view(children@);
    let mut i: usize = 0;
    while i < children.len()
        invariant
            rs == rooms_view(children@),
            i <= children@.len(),
            first_room_from(rs, child@, 0) == first_room_from(rs, child@, i as int),
        decreases children@.len() - i,
    {
        if str_eq(children[i].id.as_str(), child) {
            return clone_opt_string(&children[i].order);
        }
        i = i + 1;
    }
    None
}

/// The space panel as it opens: nothing loaded, nothing typed, no error.
pub open spec fn is_initial(s: State) -> bool {
    &&& s.space_id is None
    &&& s.name@.len() == 0
    &&& s.original_name@.len() == 0
    &&& s.canonical_alias@.len() == 0
    &&& s.original_canonical_alias@.len() == 0
    &&& !s.is_loading
    &&& !s.is_saving
    &&& s.error is None
    &&& s.children@.len() == 0
    &&& !s.is_loading_children
    &&& s.new_child_id@.len() == 0
    &&& s.new_child_order@.len() == 0
    &&& s.pending_child_orders@ == Map::<Seq<char>, Seq<char>>::empty()
    &&& !s.is_adding_child
    &&& s.topic@.len() == 0
    &&& s.original_topic@.len() == 0
    &&& s.avatar_url is None
    &&& s.avatar_data is None
    &&& !s.is_uploading_avatar
    &&& !s.is_loading_avatar
    &&& !s.is_public
    &&& !s.original_is_public
    &&& !s.is_invite_only
    &&& !s.original_is_invite_only
    &&& s.child_filter@.len() == 0
}

impl Default for State {
    fn default() -> (s: Self)
        ensures
            is_initial(s),
    {
        State {
            space_id: None,
            name: String::new(),
            original_name: String::new(),
            canonical_alias: String::new(),
            original_canonical_alias: String::new(),
            is_loading: false,
            is_saving: false,
            error: None,
            children: Vec::new(),
            is_loading_children: false,
            new_child_id: String::new(),
            new_child_order: String::new(),
            pending_child_orders: RoomTextMap::new(),
            is_adding_child: false,
            topic: String::new(),
            original_topic: String::new(),
            avatar_url: None,
            avatar_data: None,
            is_uploading_avatar: false,
            is_loading_avatar: false,
            is_public: false,
            original_is_public: false,
            is_invite_only: false,
            original_is_invite_only: false,
            child_filter: String::new(),
        }
    }
}

impl State {
    fn load_space(&mut self, id: String, has_engine: bool) -> (fx: Vec<Effect>)
        ensures
            load_space(*old(self), id, has_engine, *final(self), fx@),
    {
        if has_engine {
            self.space_id = Some(id.clone());
            self.is_loading = true;
            self.error = None;
            vec![Effect::LoadSpace(id)]
        } else {
            Vec::new()
        }
    }

    fn target(&self, has_engine: bool) -> (r: Option<String>)
        ensures
            r == target(*self, has_engine),
    {
        if has_engine {
            clone_opt_string(&self.space_id)
        } else {
            None
        }
    }

    fn fail(&mut self, prefix: &str, e: &str)
        ensures
            error_is(*final(self), prefix@, e@),
            *final(self) == (State { error: final(self).error, ..*old(self) }),
    {
        self.error = Some(concat_str(prefix, e));
    }

    fn then_reload(&mut self, res: Result<(), String>, prefix: &str) -> (fx: Vec<Effect>)
        ensures
            then_reload(*old(self), res, prefix@, *final(self), fx@),
    {
        match res {
            Ok(_) => vec![Effect::ReloadChildren],
            Err(e) => {
                self.fail(prefix, e.as_str());
                Vec::new()
            },
        }
    }

    #[verifier::rlimit(50)]
    fn update_space(&mut self, message: Message, has_engine: bool) -> (fx: Vec<Effect>)
        requires
            message is LoadSpace || message is SpaceLoaded || message is IsPublicChanged
                || message is IsInviteOnlyChanged || message is NameChanged || message is TopicChanged
                || message is CanonicalAliasChanged || message is SaveSpace || message is SpaceSaved
                || message is DismissError || message is AvatarMediaFetched || message is SelectAvatar
                || message is AvatarFileSelected || message is AvatarUploaded,
        ensures
            transition(*old(self), message, has_engine, *final(self), fx@),
    {
        match message {
            Message::LoadSpace(id) => self.load_space(id, has_engine),
            Message::SpaceLoaded(res) => {
                self.is_loading = false;
                match res {
                    Ok(info) => {
                        let canonical = match &info.canonical_alias {
                            Some(a) => a.clone(),
                            None => String::new(),
                        };
                        let public = match &info.visibility {
                            RoomVisibility::Public => true,
                            _ => false,
                        };
                        let invite_only = match &info.join_rule {
                            JoinRule::Invite => true,
                            _ => false,
                        };
                        self.name = info.name.clone();
                        self.original_name = info.name;
                        self.topic = info.topic.clone();
                        self.original_topic = info.topic;
                        self.original_canonical_alias = canonical.clone();
                        self.canonical_alias = canonical;
                        self.is_public = public;
                        self.original_is_public = public;
                        self.is_invite_only = invite_only;
                        self.original_is_invite_only = invite_only;
                        self.error = None;
                        let mut fx: Vec<Effect> = Vec::new();
                        match info.avatar_url {
                            Some(url) => {
                                self.avatar_url = Some(url.clone());
                                if has_engine {
                                    self.is_loading_avatar = true;
                                    fx.push(Effect::FetchAvatar(url));
                                }
                            },
                            None => {
                                self.avatar_url = None;
                            },
                        }
                        fx.push(Effect::ReloadChildren);
                        fx
                    },
                    Err(e) => {
                        self.error = Some(e);
                        proof {
                            reveal_strlit("");
                        }
                        Vec::new()
                    },
                }
            },
            Message::IsPublicChanged(b) => {
                self.is_public = b;
                Vec::new()
            },
            Message::IsInviteOnlyChanged(b) => {
                self.is_invite_only = b;
                Vec::new()
            },
            Message::NameChanged(n) => {
                self.name = n;
                Vec::new()
            },
            Message::TopicChanged(t) => {
                self.topic = t;
                Vec::new()
            },
            Message::CanonicalAliasChanged(a) => {
                self.canonical_alias = a;
                Vec::new()
            },
            Message::SaveSpace => match self.target(has_engine) {
                Some(id) => {
                    let changes = changes_of(self);
                    self.is_saving = true;
                    self.error = None;
                    vec![Effect::SaveSpace { space_id: id, changes }]
                },
                None => Vec::new(),
            },
            Message::SpaceSaved(res) => {
                self.is_saving = false;
                match res {
                    Ok(_) => {
                        self.original_name = self.name.clone();
                        self.original_topic = self.topic.clone();
                        self.original_canonical_alias = self.canonical_alias.clone();
                        self.original_is_public = self.is_public;
                        self.original_is_invite_only = self.is_invite_only;
                        self.error = None;
                    },
                    Err(e) => {
                        self.error = Some(e);
                        proof {
                            reveal_strlit("");
                        }
                    },
                }
                Vec::new()
            },
            Message::DismissError => {
                self.error = None;
                Vec::new()
            },
            Message::AvatarMediaFetched(res) => {
                self.is_loading_avatar = false;
                match res {
                    Ok(d) => {
                        self.avatar_data = Some(d);
                    },
                    Err(e) => {
                        self.fail("Failed to fetch avatar: ", e.as_str());
                    },
                }
                Vec::new()
            },
            Message::SelectAvatar => vec![Effect::PickAvatarFile],
            Message::AvatarFileSelected(p) => match p {
                Some(path) => if has_engine {
                    self.is_uploading_avatar = true;
                    let room_id = match &self.space_id {
                        Some(r) => r.clone(),
                        None => String::new(),
                    };
                    vec![Effect::UploadAvatar { room_id, path }]
                } else {
                    Vec::new()
                },
                None => Vec::new(),
            },
            Message::AvatarUploaded(res) => {
                self.is_uploading_avatar = false;
                match res {
                    Ok(_) => match &self.space_id {
                        Some(id) => {
                            let id = id.clone();
                            self.load_space(id, has_engine)
                        },
                        None => Vec::new(),
                    },
                    Err(e) => {
                        self.fail("Failed to upload avatar: ", e.as_str());
                        Vec::new()
                    },
                }
            },
            _ => Vec::new(),
        }
    }

    #[verifier::rlimit(50)]
    fn update_children(&mut self, message: Message, has_engine: bool) -> (fx: Vec<Effect>)
        requires
            message is LoadChildren || message is ChildrenLoaded || message is AddChild
                || message is ChildAdded || message is RemoveChild || message is ChildRemoved
                || message is NewChildIdChanged || message is NewChildOrderChanged
                || message is ChildOrderInputChanged || message is SaveChildOrder
                || message is ChildOrderSaved || message is ToggleChildSuggested
                || message is ChildSuggestedToggled || message is SetChildJoinRule
                || message is ChildFilterChanged,
        ensures
            transition(*old(self), message, has_engine, *final(self), fx@),
    {
        match message {
            Message::LoadChildren => match self.target(has_engine) {
                Some(id) => {
                    self.is_loading_children = true;
                    vec![Effect::LoadChildren(id)]
                },
                None => Vec::new(),
            },
            Message::ChildrenLoaded(res) => {
                self.is_loading_children = false;
                match res {
                    Ok(c) => {
                        self.children = c;
                    },
                    Err(e) => {
                        self.fail("Failed to load space children: ", e.as_str());
                    },
                }
                Vec::new()
            },
            Message::AddChild => match self.target(has_engine) {
                Some(id) => {
                    self.is_adding_child = true;
                    let order = order_for_sending(&self.new_child_order);
                    vec![Effect::AddChild { space_id: id, child_id: self.new_child_id.clone(), order }]
                },
                None => Vec::new(),
            },
            Message::ChildAdded(res) => {
                self.is_adding_child = false;
                match res {
                    Ok(_) => {
                        self.new_child_id = String::new();
                        self.new_child_order = String::new();
                        vec![Effect::ReloadChildren]
                    },
                    Err(e) => self.then_reload(Err(e), "Failed to add child: "),
                }
            },
            Message::RemoveChild(child) => match self.target(has_engine) {
                Some(id) => vec![Effect::RemoveChild { space_id: id, child_id: child }],
                None => Vec::new(),
            },
            Message::ChildRemoved(_, res) => self.then_reload(res, "Failed to remove child: "),
            Message::NewChildIdChanged(v) => {
                self.new_child_id = v;
                Vec::new()
            },
            Message::NewChildOrderChanged(v) => {
                self.new_child_order = v;
                Vec::new()
            },
            Message::ChildOrderInputChanged(child, order) => {
                self.pending_child_orders.insert(child, order);
                Vec::new()
            },
            Message::SaveChildOrder(child) => match self.target(has_engine) {
                Some(id) => match self.pending_child_orders.get(child.as_str()) {
                    Some(o) => {
                        let order = if is_blank_str(o) {
                            None
                        } else {
                            Some(o.to_owned())
                        };
                        vec![Effect::SaveChildOrder { space_id: id, child_id: child, order }]
                    },
                    None => Vec::new(),
                },
                None => Vec::new(),
            },
            Message::ChildOrderSaved(res) => self.then_reload(res, "Failed to update child order: "),
            Message::ToggleChildSuggested(child, suggested) => match self.target(has_engine) {
                Some(id) => {
                    let order = find_child_order(&self.children, child.as_str());
                    vec![Effect::SetChildSuggested { space_id: id, child_id: child, order, suggested }]
                },
                None => Vec::new(),
            },
            Message::ChildSuggestedToggled(res) => self.then_reload(
                res,
                "Failed to update suggested status: ",
            ),
            Message::SetChildJoinRule(room, j) => if has_engine {
                vec![Effect::SetChildJoinRule { room_id: room, join_rule: j }]
            } else {
                Vec::new()
            },
            Message::ChildFilterChanged(f) => {
                self.child_filter = f;
                Vec::new()
            },
            _ => Vec::new(),
        }
    }

    /// Handles one message; `has_engine` tells whether there is a Matrix
    /// engine. Returns what the application is to do (see `transition`).
    pub fn update(&mut self, message: Message, has_engine: bool) -> (fx: Vec<Effect>)
        ensures
            transition(*old(self), message, has_engine, *final(self), fx@),
    {
        match &message {
            Message::LoadChildren
            | Message::ChildrenLoaded(..)
            | Message::AddChild
            | Message::ChildAdded(..)
            | Message::RemoveChild(..)
            | Message::ChildRemoved(..)
            | Message::NewChildIdChanged(..)
            | Message::NewChildOrderChanged(..)
            | Message::ChildOrderInputChanged(..)
            | Message::SaveChildOrder(..)
            | Message::ChildOrderSaved(..)
            | Message::ToggleChildSuggested(..)
            | Message::ChildSuggestedToggled(..)
            | Message::SetChildJoinRule(..)
            | Message::ChildFilterChanged(..)
            => self.update_children(message, has_engine),
            _ => self.update_space(message, has_engine),
        }
    }
}


/// One child of the space as the hierarchy section lists it.
pub struct ChildRow {
    pub id: String,
    /// The child's name, or its id when it has none.
    pub name: String,
    /// The order shown: the one typed and not saved yet, else the child's
    /// own, else empty.
    pub order: String,
    pub is_space: bool,
    /// A room (not a space) whose join rule lets members of this space in:
    /// its invite-only button is the plain one.
    pub restricted_to_space: bool,
}

/// The name a child is listed under.
pub open spec fn listed_name(c: RoomDataView) -> Seq<char> {
    match c.name {
        Some(n) => n,
        None => c.id,
    }
}

/// Whether the hierarchy filter (already lowercased) keeps a child: an empty
/// filter keeps all; else its name or its id must contain the filter,
/// ignoring case.
pub open spec fn child_shown(c: RoomDataView, filter: Seq<char>) -> bool {
    ||| filter.len() == 0
    ||| contains_ignore_ascii_case_spec(listed_name(c), filter, None)
    ||| contains_ignore_ascii_case_spec(c.id, filter, None)
}

/// The children the filter keeps, in order.
pub open spec fn shown_children(cs: Seq<RoomDataView>, filter: Seq<char>) -> Seq<RoomDataView>
    decreases cs.len(),
{
    if cs.len() == 0 {
        Seq::empty()
    } else {
        let rest = shown_children(cs.drop_last(), filter);
        if child_shown(cs.last(), filter) {
            rest.push(cs.last())
        } else {
            rest
        }
    }
}

/// The order shown for a child.
pub open spec fn order_shown(s: State, c: RoomDataView) -> Seq<char> {
    if s.pending_child_orders@.dom().contains(c.id) {
        s.pending_child_orders@[c.id]
    } else {
        match c.order {
            Some(o) => o,
            None => Seq::empty(),
        }
    }
}

/// A room (not a space) restricted to members of this space.
pub open spec fn restricted_to(s: State, c: RoomDataView) -> bool {
    &&& !c.is_space
    &&& s.space_id matches Some(sid) && c.join_rule matches Some(JoinRuleView::Restricted(allow))
        && allow.contains(sid@)
}

/// The row listed for a child.
pub open spec fn row_matches(s: State, r: ChildRow, c: RoomDataView) -> bool {
    &&& r.id@ == c.id
    &&& r.name@ == listed_name(c)
    &&& r.order@ == order_shown(s, c)
    &&& r.is_space == c.is_space
    &&& r.restricted_to_space == restricted_to(s, c)
}

impl State {
    /// The rows of the hierarchy section: none while the children load;
    /// else the children the filter keeps, in order.
    pub fn hierarchy_rows(&self) -> (rows: Vec<ChildRow>)
        ensures
            self.is_loading_children ==> rows@.len() == 0,
            !self.is_loading_children ==> {
                let shown = shown_children(rooms_view(self.children@), unicode_lowercase(self.child_filter@));
                &&& rows@.len() == shown.len()
                &&& forall|i: int| 0 <= i < rows@.len() ==> row_matches(*self, #[trigger] rows@[i], shown[i])
            },
    {
        let mut rows: Vec<ChildRow> = Vec::new();
        if self.is_loading_children {
            return rows;
        }
        let filter = str_to_lowercase(self.child_filter.as_str());
        let ghost cs = rooms_view(self.children@);
        let mut i: usize = 0;
        while i < self.children.len()
            invariant
                i <= self.children@.len(),
                cs == rooms_view(self.children@),
                filter@ == unicode_lowercase(self.child_filter@),
                rows@.len() == shown_children(cs.take(i as int), filter@).len(),
                forall|k: int|
                    0 <= k < rows@.len() ==> row_matches(
                        *self,
                        #[trigger] rows@[k],
                        shown_children(cs.take(i as int), filter@)[k],
                    ),
            decreases self.children@.len() - i,
        {
            let c = &self.children[i];
            proof {
                assert(cs.take(i + 1).drop_last() =~= cs.take(i as int));
                assert(cs.take(i + 1).last() == c@);
            }
            let name: &str = match &c.name {
                Some(n) => n.as_str(),
                None => c.id.as_str(),
            };
            let shown = filter.as_str().is_empty() || contains_ignore_ascii_case(name, filter.as_str(), None)
                || contains_ignore_ascii_case(c.id.as_str(), filter.as_str(), None);
            if shown {
                let order = match self.pending_child_orders.get(c.id.as_str()) {
                    Some(o) => o.to_string(),
                    None => match &c.order {
                        Some(o) => o.clone(),
                        None => String::new(),
                    },
                };
                let restricted = if c.is_space {
                    false
                } else {
                    match (&self.space_id, &c.join_rule) {
                        (Some(sid), Some(JoinRule::Restricted(allow))) => {
                            let found = contains_string(allow, sid);
                            proof {
                                assert(strs_view(allow@) == match c@.join_rule {
                                    Some(JoinRuleView::Restricted(a)) => a,
                                    _ => Seq::empty(),
                                });
                            }
                            found
                        },
                        _ => false,
                    }
                };
                let row = ChildRow {
                    id: c.id.clone(),
                    name: name.to_string(),
                    order,
                    is_space: c.is_space,
                    restricted_to_space: restricted,
                };
                rows.push(row);
            }
            i = i + 1;
        }
        proof {
            assert(cs.take(cs.len() as int) =~= cs);
        }
        rows
    }
}

} // verus!
