//! The session: which login flow is under way, the login form, and what the
//! application does when the engine, a login, a registration or a logout
//! reports back.
use vstd::prelude::*;
use crate::QrLoginStep;
use crate::matrix::{SyncError, SyncStatus, status_for_error, sync_error_text};
use crate::summary::{is_blank, is_blank_str};
use crate::text::concat_str;

verus! {

/// Which login flow (if any) is currently in progress. Two flows at once
/// cannot be represented.
#[derive(Debug, Clone, Copy, PartialEq, Eq, Structural)]
pub enum AuthFlow {
    Idle,
    Password,
    Oidc,
    Qr { step: QrLoginStep },
}

/// The flow after a password or single-sign-on login ended: those two go
/// idle, a QR-code login goes on.
pub open spec fn flow_after_login(f: AuthFlow) -> AuthFlow {
    match f {
        AuthFlow::Password | AuthFlow::Oidc => AuthFlow::Idle,
        _ => f,
    }
}

/// Once a login has ended, successful or not, no password or single-sign-on
/// login is in progress any more; a QR-code login, which ends on its own
/// steps, goes on unchanged, and an idle flow stays idle.
pub proof fn law_finished_login_is_over(f: AuthFlow)
    ensures
        flow_after_login(f) != AuthFlow::Password,
        flow_after_login(f) != AuthFlow::Oidc,
        f is Qr ==> flow_after_login(f) == f,
        f == AuthFlow::Idle ==> flow_after_login(f) == AuthFlow::Idle,
{
}

/// What a login or registration is asked with.
pub struct Credentials {
    pub homeserver: String,
    pub username: String,
    pub password: String,
}

/// The login screen and the session.
pub struct SessionState {
    pub user_id: Option<String>,
    pub sync_status: SyncStatus,
    pub error: Option<String>,
    pub login_homeserver: String,
    pub login_username: String,
    pub login_password: String,
    pub auth_flow: AuthFlow,
    pub is_registering_mode: bool,
    pub is_registering: bool,
    pub is_initializing: bool,
    pub is_loading_more: bool,
}

/// The media that a batch of downloads brought, in order, as (address,
/// data).
pub open spec fn batch_fetched(b: Seq<(String, Result<Vec<u8>, String>)>) -> Seq<(Seq<char>, Seq<u8>)>
    decreases b.len(),
{
    if b.len() == 0 {
        Seq::empty()
    } else {
        let rest = batch_fetched(b.drop_last());
        match b.last().1 {
            Ok(d) => rest.push((b.last().0@, d@)),
            Err(_) => rest,
        }
    }
}

/// The reason of the last failed download of a batch, if one failed.
pub open spec fn batch_last_error(b: Seq<(String, Result<Vec<u8>, String>)>) -> Option<Seq<char>>
    decreases b.len(),
{
    if b.len() == 0 {
        None
    } else {
        match b.last().1 {
            Err(e) => Some(e@),
            Ok(_) => batch_last_error(b.drop_last()),
        }
    }
}

/// The fetched media seen as values.
pub open spec fn fetched_view(v: Seq<(String, Vec<u8>)>) -> Seq<(Seq<char>, Seq<u8>)> {
    v.map_values(|p: (String, Vec<u8>)| (p.0@, p.1@))
}

/// The session after switching between logging in and registering.
pub open spec fn toggled_login_mode(s: SessionState) -> SessionState {
    SessionState { is_registering_mode: !s.is_registering_mode, error: None, ..s }
}

/// Switching the login mode twice comes back to the mode the form was in,
/// with no error shown.
pub proof fn law_toggle_login_mode_twice(s: SessionState)
    ensures
        toggled_login_mode(toggled_login_mode(s)) == (SessionState { error: None, ..s }),
{
}

fn message_with(prefix: &str, e: &SyncError) -> (r: String)
    ensures
        r@ == prefix@ + sync_error_text(*e),
{
    let t = e.to_string();
    concat_str(prefix, t.as_str())
}

impl SessionState {
    /// The engine was created (`Ok`) or failed to start. On success the
    /// session is to be restored (returns `true`); on failure the error is
    /// shown and initialization ends.
    pub fn handle_engine_ready(&mut self, res: Result<(), SyncError>) -> (restore: bool)
        ensures
            restore == res is Ok,
            match res {
                Ok(_) => *final(self) == *old(self),
                Err(e) => {
                    &&& final(self).error matches Some(m) && m@ == "Failed to initialize Matrix engine: "@
                        + sync_error_text(e)
                    &&& !final(self).is_initializing
                    &&& *final(self) == (SessionState {
                        error: final(self).error,
                        is_initializing: false,
                        ..*old(self)
                    })
                },
            },
    {
        match res {
            Ok(_) => true,
            Err(e) => {
                self.error = Some(message_with("Failed to initialize Matrix engine: ", &e));
                self.is_initializing = false;
                false
            },
        }
    }

    /// The restored session (or none) and the result of starting to sync.
    /// Initialization ends. When a user is logged in, a sync failure shows in
    /// the sync status and the room avatars are to be fetched (returns
    /// `true`).
    pub fn handle_user_ready(&mut self, user_id: Option<String>, sync_res: Result<(), SyncError>) -> (go_on: bool)
        ensures
            go_on == user_id is Some,
            final(self).user_id == user_id,
            !final(self).is_initializing,
            user_id is None || sync_res is Ok ==> final(self).sync_status == old(self).sync_status,
            user_id is Some ==> match sync_res {
                Ok(_) => true,
                Err(SyncError::MissingSlidingSyncSupport) => final(self).sync_status
                    == SyncStatus::MissingSlidingSyncSupport,
                Err(e) => final(self).sync_status matches SyncStatus::Error(m) && m@ == sync_error_text(e),
            },
            *final(self) == (SessionState {
                user_id: final(self).user_id,
                is_initializing: false,
                sync_status: final(self).sync_status,
                ..*old(self)
            }),
    {
        let logged_in = user_id.is_some();
        self.user_id = user_id;
        self.is_initializing = false;
        if !logged_in {
            return false;
        }
        match sync_res {
            Ok(_) => {},
            Err(e) => {
                self.sync_status = status_for_error(&e);
            },
        }
        true
    }

    /// A media download finished: the data goes to the media cache (it is
    /// returned), or the error is shown.
    pub fn handle_media_fetched(&mut self, res: Result<Vec<u8>, String>) -> (data: Option<Vec<u8>>)
        ensures
            match res {
                Ok(d) => data == Some(d) && *final(self) == *old(self),
                Err(e) => {
                    &&& data is None
                    &&& final(self).error matches Some(m) && m@ == "Failed to fetch media: "@ + e@
                    &&& *final(self) == (SessionState { error: final(self).error, ..*old(self) })
                },
            },
    {
        match res {
            Ok(d) => Some(d),
            Err(e) => {
                self.error = Some(concat_str("Failed to fetch media: ", e.as_str()));
                None
            },
        }
    }

    /// A batch of media downloads finished: the media that came go to the
    /// media cache (they are returned, in order); the last failure, if any,
    /// is shown.
    pub fn handle_media_fetched_batch(&mut self, batch: Vec<(String, Result<Vec<u8>, String>)>) -> (fetched: Vec<(String, Vec<u8>)>)
        ensures
            fetched_view(fetched@) == batch_fetched(batch@),
            match batch_last_error(batch@) {
                Some(e) => {
                    &&& final(self).error matches Some(m) && m@ == "Failed to fetch media: "@ + e
                    &&& *final(self) == (SessionState { error: final(self).error, ..*old(self) })
                },
                None => *final(self) == *old(self),
            },
    {
        let ghost b = batch@;
        let mut fetched: Vec<(String, Vec<u8>)> = Vec::new();
        let mut last_error: Option<String> = None;
        let mut i: usize = 0;
        proof {
            assert(b.take(0) =~= Seq::<(String, Result<Vec<u8>, String>)>::empty());
            assert(fetched_view(fetched@) =~= Seq::<(Seq<char>, Seq<u8>)>::empty());
        }
        while i < batch.len()
            invariant
                i <= batch@.len(),
                b == batch@,
                fetched_view(fetched@) == batch_fetched(b.take(i as int)),
                match last_error {
                    Some(e) => batch_last_error(b.take(i as int)) == Some(e@),
                    None => batch_last_error(b.take(i as int)) is None,
                },
            decreases batch@.len() - i,
        {
            proof {
                assert(b.take(i + 1).drop_last() =~= b.take(i as int));
                assert(b.take(i + 1).last() == b[i as int]);
            }
            match &batch[i].1 {
                Ok(d) => {
                    let data = d.clone();
                    assert(data@ =~= d@);
                    fetched.push((batch[i].0.clone(), data));
                    assert(fetched_view(fetched@) =~= batch_fetched(b.take(i as int)).push((b[i as int].0@, d@)));
                },
                Err(e) => {
                    last_error = Some(e.clone());
                },
            }
            i = i + 1;
        }
        proof {
            assert(b.take(b.len() as int) =~= b);
        }
        if let Some(e) = last_error {
            self.error = Some(concat_str("Failed to fetch media: ", e.as_str()));
        }
        fetched
    }

    /// Joining a room finished: the joined room's id is handed back, or the
    /// error is shown.
    pub fn handle_room_joined(&mut self, res: Result<String, String>) -> (joined: Option<String>)
        ensures
            match res {
                Ok(id) => joined == Some(id) && *final(self) == *old(self),
                Err(e) => {
                    &&& joined is None
                    &&& final(self).error matches Some(m) && m@ == "Failed to join room: "@ + e@
                    &&& *final(self) == (SessionState { error: final(self).error, ..*old(self) })
                },
            },
    {
        match res {
            Ok(id) => Some(id),
            Err(e) => {
                self.error = Some(concat_str("Failed to join room: ", e.as_str()));
                None
            },
        }
    }

    /// Switches between logging in and registering; any error is dismissed.
    pub fn handle_toggle_login_mode(&mut self)
        ensures
            *final(self) == toggled_login_mode(*old(self)),
    {
        self.is_registering_mode = !self.is_registering_mode;
        self.error = None;
    }

    /// Starts a registration when there is an engine: the password is taken
    /// out of the form and handed over with the homeserver and user name.
    pub fn handle_submit_register(&mut self, has_engine: bool) -> (r: Option<Credentials>)
        ensures
            !has_engine ==> r is None && *final(self) == *old(self),
            has_engine ==> {
                &&& r matches Some(c) && c.homeserver == old(self).login_homeserver && c.username
                    == old(self).login_username && c.password == old(self).login_password
                &&& final(self).login_password@.len() == 0
                &&& *final(self) == (SessionState {
                    is_registering: true,
                    error: None,
                    sync_status: SyncStatus::Disconnected,
                    login_password: final(self).login_password,
                    ..*old(self)
                })
            },
    {
        if !has_engine {
            return None;
        }
        self.is_registering = true;
        self.error = None;
        self.sync_status = SyncStatus::Disconnected;
        let mut password = String::new();
        std::mem::swap(&mut password, &mut self.login_password);
        Some(Credentials {
            homeserver: self.login_homeserver.clone(),
            username: self.login_username.clone(),
            password,
        })
    }

    /// A registration ended: on success the user is logged in and the form
    /// is cleared; on failure the error is shown.
    pub fn handle_register_finished(&mut self, res: Result<String, SyncError>)
        ensures
            !final(self).is_registering,
            match res {
                Ok(u) => {
                    &&& final(self).user_id == Some(u)
                    &&& final(self).login_homeserver@.len() == 0
                    &&& final(self).login_username@.len() == 0
                    &&& final(self).login_password@.len() == 0
                    &&& *final(self) == (SessionState {
                        is_registering: false,
                        user_id: Some(u),
                        login_homeserver: final(self).login_homeserver,
                        login_username: final(self).login_username,
                        login_password: final(self).login_password,
                        error: None,
                        ..*old(self)
                    })
                },
                Err(e) => {
                    &&& final(self).error matches Some(m) && m@ == "Registration failed: "@ + sync_error_text(e)
                    &&& *final(self) == (SessionState {
                        is_registering: false,
                        error: final(self).error,
                        ..*old(self)
                    })
                },
            },
    {
        self.is_registering = false;
        match res {
            Ok(u) => {
                self.user_id = Some(u);
                self.login_homeserver = String::new();
                self.login_username = String::new();
                self.login_password = String::new();
                self.error = None;
            },
            Err(e) => {
                self.error = Some(message_with("Registration failed: ", &e));
            },
        }
    }

    /// Starts a password login when there is an engine: the password is
    /// taken out of the form and handed over with the homeserver and user
    /// name.
    pub fn handle_submit_login(&mut self, has_engine: bool) -> (r: Option<Credentials>)
        ensures
            !has_engine ==> r is None && *final(self) == *old(self),
            has_engine ==> {
                &&& r matches Some(c) && c.homeserver == old(self).login_homeserver && c.username
                    == old(self).login_username && c.password == old(self).login_password
                &&& final(self).login_password@.len() == 0
                &&& *final(self) == (SessionState {
                    auth_flow: AuthFlow::Password,
                    error: None,
                    sync_status: SyncStatus::Disconnected,
                    login_password: final(self).login_password,
                    ..*old(self)
                })
            },
    {
        if !has_engine {
            return None;
        }
        self.auth_flow = AuthFlow::Password;
        self.error = None;
        self.sync_status = SyncStatus::Disconnected;
        let mut password = String::new();
        std::mem::swap(&mut password, &mut self.login_password);
        Some(Credentials {
            homeserver: self.login_homeserver.clone(),
            username: self.login_username.clone(),
            password,
        })
    }

    /// A password or single-sign-on login ended: the flow goes idle; on
    /// success the user is logged in; a homeserver without sliding sync
    /// shows in the sync status; another failure shows as an error.
    pub fn handle_login_finished(&mut self, res: Result<String, SyncError>)
        ensures
            final(self).auth_flow == flow_after_login(old(self).auth_flow),
            final(self).auth_flow != AuthFlow::Password && final(self).auth_flow != AuthFlow::Oidc,
            match res {
                Ok(u) => *final(self) == (SessionState {
                    auth_flow: final(self).auth_flow,
                    user_id: Some(u),
                    ..*old(self)
                }),
                Err(SyncError::MissingSlidingSyncSupport) => *final(self) == (SessionState {
                    auth_flow: final(self).auth_flow,
                    sync_status: SyncStatus::MissingSlidingSyncSupport,
                    ..*old(self)
                }),
                Err(e) => {
                    &&& final(self).error matches Some(m) && m@ == "Login failed: "@ + sync_error_text(e)
                    &&& *final(self) == (SessionState {
                        auth_flow: final(self).auth_flow,
                        error: final(self).error,
                        ..*old(self)
                    })
                },
            },
    {
        self.auth_flow = match self.auth_flow {
            AuthFlow::Password | AuthFlow::Oidc => AuthFlow::Idle,
            f => f,
        };
        match res {
            Ok(u) => {
                self.user_id = Some(u);
            },
            Err(SyncError::MissingSlidingSyncSupport) => {
                self.sync_status = SyncStatus::MissingSlidingSyncSupport;
            },
            Err(e) => {
                self.error = Some(message_with("Login failed: ", &e));
            },
        }
    }

    /// Starts a single-sign-on login when there is an engine; the homeserver
    /// to log in at is returned.
    pub fn handle_submit_oidc_login(&mut self, has_engine: bool) -> (r: Option<String>)
        ensures
            !has_engine ==> r is None && *final(self) == *old(self),
            has_engine ==> r == Some(old(self).login_homeserver) && *final(self) == (SessionState {
                auth_flow: AuthFlow::Oidc,
                error: None,
                ..*old(self)
            }),
    {
        if !has_engine {
            return None;
        }
        self.auth_flow = AuthFlow::Oidc;
        self.error = None;
        Some(self.login_homeserver.clone())
    }

    /// The single-sign-on login page is ready (its address is returned, to
    /// be opened), or starting the login failed: then the flow goes idle and
    /// the error is shown.
    pub fn handle_oidc_login_started(&mut self, res: Result<String, String>) -> (open: Option<String>)
        ensures
            match res {
                Ok(url) => open == Some(url) && *final(self) == *old(self),
                Err(e) => {
                    &&& open is None
                    &&& final(self).error matches Some(m) && m@ == "OIDC login failed to start: "@ + e@
                    &&& *final(self) == (SessionState {
                        auth_flow: if old(self).auth_flow == AuthFlow::Oidc {
                            AuthFlow::Idle
                        } else {
                            old(self).auth_flow
                        },
                        error: final(self).error,
                        ..*old(self)
                    })
                },
            },
    {
        match res {
            Ok(url) => Some(url),
            Err(e) => {
                if self.auth_flow == AuthFlow::Oidc {
                    self.auth_flow = AuthFlow::Idle;
                }
                self.error = Some(concat_str("OIDC login failed to start: ", e.as_str()));
                None
            },
        }
    }

    /// The browser came back from the single-sign-on page: when there is an
    /// engine the login is to be completed (returns `true`).
    pub fn handle_oidc_callback(&mut self, has_engine: bool) -> (complete: bool)
        ensures
            complete == has_engine,
            !has_engine ==> *final(self) == *old(self),
            has_engine ==> *final(self) == (SessionState { auth_flow: AuthFlow::Oidc, error: None, ..*old(self) }),
    {
        if has_engine {
            self.auth_flow = AuthFlow::Oidc;
            self.error = None;
        }
        has_engine
    }

    /// The logout finished: the session is gone and the form keeps the
    /// homeserver and user name but not the password.
    pub fn handle_logout_finished(&mut self)
        ensures
            final(self).login_password@.len() == 0,
            final(self).auth_flow != AuthFlow::Password && final(self).auth_flow != AuthFlow::Oidc,
            *final(self) == (SessionState {
                user_id: None,
                sync_status: SyncStatus::Disconnected,
                auth_flow: flow_after_login(old(self).auth_flow),
                login_password: final(self).login_password,
                error: None,
                is_loading_more: false,
                ..*old(self)
            }),
    {
        self.user_id = None;
        self.sync_status = SyncStatus::Disconnected;
        self.auth_flow = match self.auth_flow {
            AuthFlow::Password | AuthFlow::Oidc => AuthFlow::Idle,
            f => f,
        };
        self.login_password = String::new();
        self.error = None;
        self.is_loading_more = false;
    }

    /// Asks for older messages of the selected room, unless that is under
    /// way already; it needs an engine and a selected room. Returns whether
    /// to load.
    pub fn handle_load_more(&mut self, has_engine: bool, has_selected_room: bool) -> (load: bool)
        ensures
            load == (!old(self).is_loading_more && has_engine && has_selected_room),
            *final(self) == (SessionState {
                is_loading_more: old(self).is_loading_more || load,
                ..*old(self)
            }),
    {
        if self.is_loading_more {
            return false;
        }
        if has_engine && has_selected_room {
            self.is_loading_more = true;
            true
        } else {
            false
        }
    }
}

/// How the login form's main button shows.
pub enum MainButton {
    /// A registration is under way.
    CreatingAccount,
    CreateAccount { enabled: bool },
    /// A password login is under way.
    LoggingIn,
    Login { enabled: bool },
}

/// What the login screen shows and which of its controls respond.
pub struct LoginForm {
    /// A QR-code login is under way: its own screen shows instead.
    pub qr_screen: bool,
    pub registering_title: bool,
    pub inputs_editable: bool,
    /// A field is missing: the main button explains what to fill in.
    pub missing_fields: bool,
    pub main_button: MainButton,
    /// A single-sign-on login waits for the browser (with a cancel button).
    pub oidc_waiting: bool,
    pub oidc_enabled: bool,
    pub qr_enabled: bool,
    /// The single-sign-on and QR-code buttons show (not when registering).
    pub show_other_logins: bool,
    pub toggle_enabled: bool,
}

impl SessionState {
    /// A login or registration is under way.
    pub open spec fn busy(&self) -> bool {
        self.auth_flow == AuthFlow::Password || self.auth_flow == AuthFlow::Oidc || self.is_registering
    }

    /// A field of the form is missing: a blank homeserver or user name, or
    /// an empty password.
    pub open spec fn missing_fields(&self) -> bool {
        is_blank(self.login_homeserver@) || is_blank(self.login_username@) || self.login_password@.len() == 0
    }

    /// The login screen for the current state.
    pub fn login_form(&self) -> (f: LoginForm)
        ensures
            f.qr_screen == self.auth_flow is Qr,
            f.registering_title == self.is_registering_mode,
            f.inputs_editable == !self.busy(),
            f.missing_fields == self.missing_fields(),
            f.main_button == if self.is_registering_mode {
                if self.is_registering {
                    MainButton::CreatingAccount
                } else {
                    MainButton::CreateAccount { enabled: !self.missing_fields() }
                }
            } else if self.auth_flow == AuthFlow::Password {
                MainButton::LoggingIn
            } else {
                MainButton::Login { enabled: !self.missing_fields() && self.auth_flow != AuthFlow::Oidc }
            },
            f.oidc_waiting == (self.auth_flow == AuthFlow::Oidc),
            f.oidc_enabled == (self.login_homeserver@.len() != 0 && self.auth_flow != AuthFlow::Password
                && self.auth_flow != AuthFlow::Oidc && !self.is_registering_mode),
            f.qr_enabled == (self.auth_flow != AuthFlow::Password && self.auth_flow != AuthFlow::Oidc
                && !self.is_registering_mode),
            f.show_other_logins == !self.is_registering_mode,
            f.toggle_enabled == !self.busy(),
    {
        let busy = self.auth_flow == AuthFlow::Password || self.auth_flow == AuthFlow::Oidc
            || self.is_registering;
        let missing = is_blank_str(self.login_homeserver.as_str()) || is_blank_str(
            self.login_username.as_str(),
        ) || self.login_password.as_str().is_empty();
        let main_button = if self.is_registering_mode {
            if self.is_registering {
                MainButton::CreatingAccount
            } else {
                MainButton::CreateAccount { enabled: !missing }
            }
        } else if self.auth_flow == AuthFlow::Password {
            MainButton::LoggingIn
        } else {
            MainButton::Login { enabled: !missing && self.auth_flow != AuthFlow::Oidc }
        };
        let oidc_waiting = self.auth_flow == AuthFlow::Oidc;
        LoginForm {
            qr_screen: matches!(self.auth_flow, AuthFlow::Qr { .. }),
            registering_title: self.is_registering_mode,
            inputs_editable: !busy,
            missing_fields: missing,
            main_button,
            oidc_waiting,
            oidc_enabled: !self.login_homeserver.as_str().is_empty() && self.auth_flow != AuthFlow::Password
                && !oidc_waiting && !self.is_registering_mode,
            qr_enabled: self.auth_flow != AuthFlow::Password && !self.is_registering_mode && self.auth_flow
                != AuthFlow::Oidc,
            show_other_logins: !self.is_registering_mode,
            toggle_enabled: !busy,
        }
    }
}

} // verus!
