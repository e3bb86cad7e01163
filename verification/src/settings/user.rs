//! The account settings panel: profile, password, devices and their
//! verification, cross-signing, contact addresses (3PIDs), notification
//! keywords and ignored users. What each message does to the panel's state,
//! and which requests to the homeserver (or dialogs) it starts.
use vstd::prelude::*;
use crate::settings::config::Config;
use crate::settings::room::NotificationMode;
use crate::rooms::clone_opt_string;
use crate::text::{concat_str, str_eq};

verus! {

/// One of the user's devices, as the panel lists it.
pub struct DeviceInfo {
    pub device_id: String,
    pub display_name: Option<String>,
    pub is_verified: bool,
    pub is_current: bool,
    pub is_renaming: bool,
    pub edit_name: String,
    pub is_deleting: bool,
}

impl Clone for DeviceInfo {
    #[verifier::spinoff_prover]
    fn clone(&self) -> (r: Self)
        ensures
            r == *self,
    {
        DeviceInfo {
            device_id: self.device_id.clone(),
            display_name: clone_opt_string(&self.display_name),
            is_verified: self.is_verified,
            is_current: self.is_current,
            is_renaming: self.is_renaming,
            edit_name: self.edit_name.clone(),
            is_deleting: self.is_deleting,
        }
    }
}

/// The kind of a contact address.
#[derive(Debug, PartialEq, Eq)]
pub enum Medium {
    Email,
    Msisdn,
    /// A kind this client does not know.
    Other(String),
}

/// A contact address (email or phone number) of the account.
#[derive(Debug, PartialEq, Eq)]
pub struct Threepid {
    pub address: String,
    pub medium: Medium,
}

impl Clone for Medium {
    #[verifier::spinoff_prover]
    fn clone(&self) -> (r: Self)
        ensures
            r == *self,
    {
        match self {
            Medium::Email => Medium::Email,
            Medium::Msisdn => Medium::Msisdn,
            Medium::Other(s) => Medium::Other(s.clone()),
        }
    }
}

impl Clone for Threepid {
    #[verifier::spinoff_prover]
    fn clone(&self) -> (r: Self)
        ensures
            r == *self,
    {
        Threepid { address: self.address.clone(), medium: self.medium.clone() }
    }
}

/// Where a device verification stands, as the panel shows it.
#[derive(Debug, Clone, PartialEq)]
pub enum VerificationUIState {
    /// No verification under way.
    Idle,
    WaitingForOtherDevice,
    /// The emojis to compare, each with its description.
    ShowingEmojis(Vec<(String, String)>),
    Done,
    Cancelled,
}

/// Which cross-signing keys the account has, and the keys if known.
#[derive(Debug, Clone, PartialEq, Eq)]
pub struct CrossSigningInfo {
    pub has_master: bool,
    pub has_self_signing: bool,
    pub has_user_signing: bool,
    pub master_key: Option<String>,
    pub self_signing_key: Option<String>,
    pub user_signing_key: Option<String>,
}

/// How a verification request went on.
#[derive(Debug, Clone, Copy, PartialEq, Eq, Structural)]
pub enum RequestState {
    /// The other device accepted: the emoji comparison can start.
    Ready,
    Done,
    Cancelled,
    /// A state the panel does not act on.
    Other,
}

/// How an emoji comparison (SAS) went on.
pub enum SasState {
    /// The keys were exchanged; the emojis, when the method has them.
    KeysExchanged(Option<Vec<(String, String)>>),
    Done,
    Cancelled,
    /// A state the panel does not act on.
    Other,
}

/// The account settings panel.
pub struct State {
    pub display_name: String,
    pub original_display_name: String,
    pub is_loading: bool,
    pub is_saving: bool,
    pub error: Option<String>,
    pub avatar_url: Option<String>,
    /// The avatar's image data, once fetched.
    pub avatar_data: Option<Vec<u8>>,
    pub is_uploading_avatar: bool,
    pub is_loading_avatar: bool,
    pub current_password: String,
    pub new_password: String,
    pub confirm_new_password: String,
    pub is_changing_password: bool,
    pub password_success: Option<String>,
    pub success_message: Option<String>,
    pub devices: Vec<DeviceInfo>,
    pub is_loading_devices: bool,
    /// A verification request is under way (the application holds it).
    pub has_verification_request: bool,
    /// An emoji comparison is under way (the application holds it).
    pub has_sas: bool,
    pub verification_ui_state: VerificationUIState,
    pub device_delete_password: String,
    pub global_notification_mode_dm: Option<NotificationMode>,
    pub global_notification_mode_group: Option<NotificationMode>,
    pub is_loading_global_notifications: bool,
    pub deactivate_password: String,
    pub is_deactivating: bool,
    pub cross_signing_info: Option<CrossSigningInfo>,
    pub is_loading_cross_signing: bool,
    pub is_bootstrapping: bool,
    pub media_previews_display_policy: bool,
    pub invite_avatars_display_policy: bool,
    pub threepids: Vec<Threepid>,
    pub is_loading_3pids: bool,
    pub new_3pid_email: String,
    pub new_3pid_msisdn: String,
    pub new_3pid_country_code: String,
    pub is_requesting_3pid_token: bool,
    pub adding_3pid_sid: Option<String>,
    pub adding_3pid_client_secret: Option<String>,
    pub add_3pid_password: String,
    pub keywords: Vec<String>,
    pub new_keyword: String,
    pub is_loading_keywords: bool,
    pub ignored_users: Vec<String>,
    pub is_loading_ignored_users: bool,
    pub new_ignore_user_id: String,
}

/// What the user or the homeserver told the panel.
pub enum Message {
    LoadProfile,
    LoadIgnoredUsers,
    IgnoredUsersLoaded(Result<Vec<String>, String>),
    NewIgnoreUserIdChanged(String),
    IgnoreUser,
    UserIgnored(Result<(), String>),
    UnignoreUser(String),
    UserUnignored(String, Result<(), String>),
    ProfileLoaded(Result<Option<String>, String>),
    AvatarUrlLoaded(Result<Option<String>, String>),
    AvatarMediaFetched(Result<Vec<u8>, String>),
    SelectAvatar,
    /// The file picked for the avatar, if any.
    AvatarFileSelected(Option<String>),
    /// The address of the uploaded avatar, or why it failed.
    AvatarUploaded(Result<String, String>),
    DisplayNameChanged(String),
    SaveProfile,
    ProfileSaved(Result<(), String>),
    DismissError,
    CurrentPasswordChanged(String),
    NewPasswordChanged(String),
    ConfirmNewPasswordChanged(String),
    ChangePassword,
    PasswordChanged(Result<(), String>),
    DismissPasswordSuccess,
    LoadDevices,
    DevicesLoaded(Result<Vec<DeviceInfo>, String>),
    VerifyDevice(String),
    /// A verification request was sent (the application keeps it), or not.
    VerificationRequested(Result<(), String>),
    VerificationRequestStateChanged(RequestState),
    /// The emoji comparison started (`true`), the other device cannot do it
    /// (`false`), or starting it failed.
    SasStarted(Result<bool, String>),
    SasStateChanged(SasState),
    ConfirmEmojis,
    EmojisConfirmed(Result<(), String>),
    CancelVerification,
    DeviceDeletePasswordChanged(String),
    StartRenameDevice(String),
    CancelRenameDevice(String),
    EditDeviceNameChanged(String, String),
    SaveDeviceName(String),
    DeviceRenamed(String, Result<(), String>),
    DeleteDevice(String),
    DeviceDeleted(String, Result<(), String>),
    DeactivatePasswordChanged(String),
    DeactivateAccount,
    AccountDeactivated(Result<(), String>),
    /// For direct chats (`true`) or group rooms.
    GlobalNotificationModeChanged(bool, NotificationMode),
    GlobalNotificationModeLoaded(bool, NotificationMode),
    GlobalNotificationModeSet(Result<(), String>),
    LoadCrossSigningStatus,
    CrossSigningStatusLoaded(Result<Option<CrossSigningInfo>, String>),
    BootstrapCrossSigning,
    CrossSigningBootstrapped(Result<(), String>),
    ToggleMediaPreviewsDisplayPolicy(bool),
    ToggleInviteAvatarsDisplayPolicy(bool),
    Load3PIDs,
    ThreepidsLoaded(Result<Vec<Threepid>, String>),
    New3PIDEmailChanged(String),
    New3PIDMsisdnChanged(String),
    New3PIDCountryCodeChanged(String),
    /// Ask for a token for the email typed, with a fresh client secret.
    Request3PIDEmailToken(String),
    /// Ask for a token for the phone number typed, with a fresh client secret.
    Request3PIDMsisdnToken(String),
    /// The session id of the token request, or why it failed.
    ThreepidTokenRequested(Result<String, String>),
    Add3PIDPasswordChanged(String),
    Add3PID,
    ThreepidAdded(Result<(), String>),
    Delete3PID(String, Medium),
    ThreepidDeleted(String, Result<(), String>),
    DismissSuccessMessage,
    LoadKeywords,
    KeywordsLoaded(Vec<String>),
    NewKeywordChanged(String),
    AddKeyword,
    KeywordAdded(Result<(), String>),
    RemoveKeyword(String),
    KeywordRemoved(Result<(), String>),
    IgnoreUserById(String),
    UnignoreUserById(String),
}

/// The parts of the panel that a message loads.
#[derive(Debug, Clone, Copy, PartialEq, Eq, Structural)]
pub enum Load {
    /// `LoadDevices`
    Devices,
    /// `Load3PIDs`
    Threepids,
    /// `LoadCrossSigningStatus`
    CrossSigning,
    /// `LoadKeywords`
    Keywords,
    /// `LoadIgnoredUsers`
    IgnoredUsers,
}

/// What the application is to do for the panel. Each request is answered
/// by the message named after its outcome.
pub enum Effect {
    /// Send the panel the message that loads a part of it.
    Dispatch(Load),
    /// Answered by `ProfileLoaded`.
    FetchDisplayName,
    /// Answered by `AvatarUrlLoaded`.
    FetchAvatarUrl,
    /// Answered by `GlobalNotificationModeLoaded` (for direct chats or not).
    FetchDefaultNotificationMode(bool),
    LoadIgnoredUsers,
    /// Answered by `UserIgnored`; a text that is not a user id fails.
    IgnoreUser(String),
    UnignoreUser(String),
    FetchAvatar(String),
    PickAvatarFile,
    UploadAvatar(String),
    /// Set the display name (none when empty).
    SetDisplayName(Option<String>),
    /// For encrypted and unencrypted rooms; answered by
    /// `GlobalNotificationModeSet`.
    SetDefaultNotificationMode { direct: bool, mode: NotificationMode },
    ChangePassword { current: String, new: String },
    LoadDevices,
    RequestVerification(String),
    /// Follow the request's states (`VerificationRequestStateChanged`).
    WatchVerificationRequest,
    /// Answered by `SasStarted`.
    StartSas,
    /// Follow the comparison's states (`SasStateChanged`).
    WatchSas,
    ConfirmSas,
    CancelSas,
    CancelVerificationRequest,
    RenameDevice { device_id: String, name: String },
    /// With the password when the server asks for one.
    DeleteDevice { device_id: String, password: String },
    /// With the password when the server asks for one.
    Deactivate { password: String },
    Logout,
    CloseSettings,
    LoadCrossSigningStatus,
    /// With the device-deletion password when the server asks for one.
    BootstrapCrossSigning { password: String },
    /// Store the policy on the account; then the preferences changed.
    SetMediaPreviewsPolicy(bool),
    SetInviteAvatarsPolicy(bool),
    /// A preference changed: it is to be stored and applied.
    AppSettingChanged,
    Load3PIDs,
    RequestEmailToken { client_secret: String, email: String },
    RequestMsisdnToken { client_secret: String, country: String, msisdn: String },
    /// With the password when the server asks for one.
    Add3PID { sid: String, client_secret: String, password: String },
    Delete3PID { address: String, medium: Medium },
    LoadKeywords,
    AddKeyword(String),
    RemoveKeyword(String),
}

/// The error the panel shows after `prefix` and the reason `e`.
#[verifier::inline]
pub open spec fn error_is(s: State, prefix: Seq<char>, e: Seq<char>) -> bool {
    s.error matches Some(m) && m@ == prefix + e
}

/// `post` is `pre` showing the error `prefix` and `e`, and nothing is asked.
#[verifier::inline]
pub open spec fn failed(pre: State, prefix: Seq<char>, e: Seq<char>, post: State, fx: Seq<Effect>) -> bool {
    error_is(post, prefix, e) && post == (State { error: post.error, ..pre }) && fx.len() == 0
}

/// What loading the ignored users does.
#[verifier::inline]
pub open spec fn load_ignored(pre: State, engine: bool, post: State, fx: Seq<Effect>) -> bool {
    if engine {
        post == (State { is_loading_ignored_users: true, ..pre }) && fx =~= seq![Effect::LoadIgnoredUsers]
    } else {
        post == pre && fx.len() == 0
    }
}

/// What loading the devices does.
#[verifier::inline]
pub open spec fn load_devices(pre: State, engine: bool, post: State, fx: Seq<Effect>) -> bool {
    if engine {
        post == (State { is_loading_devices: true, error: None, ..pre }) && fx =~= seq![Effect::LoadDevices]
    } else {
        post == pre && fx.len() == 0
    }
}

/// What loading the keywords does.
#[verifier::inline]
pub open spec fn load_keywords(pre: State, engine: bool, post: State, fx: Seq<Effect>) -> bool {
    if engine {
        post == (State { is_loading_keywords: true, ..pre }) && fx =~= seq![Effect::LoadKeywords]
    } else {
        post == pre && fx.len() == 0
    }
}

/// What loading the contact addresses does.
#[verifier::inline]
pub open spec fn load_3pids(pre: State, engine: bool, post: State, fx: Seq<Effect>) -> bool {
    if engine {
        post == (State { is_loading_3pids: true, ..pre }) && fx =~= seq![Effect::Load3PIDs]
    } else {
        post == pre && fx.len() == 0
    }
}

/// What loading the cross-signing status does.
#[verifier::inline]
pub open spec fn load_cross_signing(pre: State, engine: bool, post: State, fx: Seq<Effect>) -> bool {
    post == (State { is_loading_cross_signing: true, ..pre }) && if engine {
        fx =~= seq![Effect::LoadCrossSigningStatus]
    } else {
        fx.len() == 0
    }
}

/// What learning that the avatar is at `url` does: it is fetched when there
/// is an engine.
#[verifier::inline]
pub open spec fn avatar_found(pre: State, url: String, engine: bool, post: State, fx: Seq<Effect>) -> bool {
    &&& post == (State { is_loading_avatar: false, avatar_url: Some(url), ..pre })
    &&& engine ==> fx =~= seq![Effect::FetchAvatar(url)]
    &&& !engine ==> fx.len() == 0
}

/// What learning the avatar's address does.
#[verifier::inline]
pub open spec fn avatar_url_loaded(
    pre: State,
    res: Result<Option<String>, String>,
    engine: bool,
    post: State,
    fx: Seq<Effect>,
) -> bool {
    match res {
        Ok(Some(url)) => avatar_found(pre, url, engine, post, fx),
        Ok(None) => post == (State {
            is_loading_avatar: false,
            avatar_url: None,
            avatar_data: None,
            ..pre
        }) && fx.len() == 0,
        Err(e) => failed(State { is_loading_avatar: false, ..pre }, "Failed to load avatar URL: "@, e@, post, fx),
    }
}

/// The position of the first device with id `id`, from position `k` on.
pub open spec fn device_from(devs: Seq<DeviceInfo>, id: Seq<char>, k: int) -> Option<int>
    decreases devs.len() - k,
{
    if k < 0 || k >= devs.len() {
        None
    } else if devs[k].device_id@ == id {
        Some(k)
    } else {
        device_from(devs, id, k + 1)
    }
}

/// `s` with the first device with id `id` changed by `f` (or unchanged when
/// there is none).
#[verifier::inline]
pub open spec fn with_device(s: State, id: Seq<char>, f: spec_fn(DeviceInfo) -> DeviceInfo) -> Seq<DeviceInfo> {
    device_list_with(s.devices@, id, f)
}

/// `devs` with the first device with id `id` changed by `f` (or unchanged
/// when there is none).
#[verifier::inline]
pub open spec fn device_list_with(devs: Seq<DeviceInfo>, id: Seq<char>, f: spec_fn(DeviceInfo) -> DeviceInfo) -> Seq<DeviceInfo> {
    match device_from(devs, id, 0) {
        Some(i) => devs.update(i, f(devs[i])),
        None => devs,
    }
}

/// The verification is over: no request or comparison is kept.
#[verifier::inline]
pub open spec fn verification_ended(pre: State, ui: VerificationUIState) -> State {
    State { verification_ui_state: ui, has_verification_request: false, has_sas: false, ..pre }
}

/// What `LoadProfile` does.
#[verifier::inline]
pub open spec fn load_profile_step(pre: State, engine: bool, post: State, fx: Seq<Effect>) -> bool {
    if engine {
        post == (State { is_loading: true, error: None, is_loading_avatar: true, ..pre }) && fx =~= seq![
            Effect::FetchDisplayName,
            Effect::FetchAvatarUrl,
            Effect::Dispatch(Load::Devices),
            Effect::Dispatch(Load::Threepids),
            Effect::FetchDefaultNotificationMode(true),
            Effect::FetchDefaultNotificationMode(false),
            Effect::Dispatch(Load::CrossSigning),
            Effect::Dispatch(Load::Keywords),
            Effect::Dispatch(Load::IgnoredUsers),
        ]
    } else {
        post == pre && fx.len() == 0
    }
}

/// What `IgnoreUserById` does.
#[verifier::inline]
pub open spec fn ignore_user_by_id_step(pre: State, u: String, engine: bool, post: State, fx: Seq<Effect>) -> bool {
    if engine {
        post == (State { is_loading_ignored_users: true, ..pre }) && fx =~= seq![Effect::IgnoreUser(u)]
    } else {
        post == pre && fx.len() == 0
    }
}

/// What `UnignoreUserById` does.
#[verifier::inline]
pub open spec fn unignore_user_by_id_step(pre: State, u: String, engine: bool, post: State, fx: Seq<Effect>) -> bool {
    if engine {
        post == (State { is_loading_ignored_users: true, ..pre }) && fx =~= seq![Effect::UnignoreUser(u)]
    } else {
        post == pre && fx.len() == 0
    }
}

/// What `LoadIgnoredUsers` does.
#[verifier::inline]
pub open spec fn load_ignored_users_step(pre: State, engine: bool, post: State, fx: Seq<Effect>) -> bool {
    load_ignored(pre, engine, post, fx)
}

/// What `IgnoredUsersLoaded` does.
#[verifier::inline]
pub open spec fn ignored_users_loaded_step(pre: State, res: Result<Vec<String>, String>, engine: bool, post: State, fx: Seq<Effect>) -> bool {
    fx.len() == 0 && match res {
        Ok(users) => post == (State { is_loading_ignored_users: false, ignored_users: users, ..pre }),
        Err(e) => error_is(post, "Failed to load ignored users: "@, e@) && post == (State { is_loading_ignored_users: false, error: post.error, ..pre }),
    }
}

/// What `NewIgnoreUserIdChanged` does.
#[verifier::inline]
pub open spec fn new_ignore_user_id_changed_step(pre: State, u: String, engine: bool, post: State, fx: Seq<Effect>) -> bool {
    post == (State { new_ignore_user_id: u, ..pre }) && fx.len() == 0
}

/// What `IgnoreUser` does.
#[verifier::inline]
pub open spec fn ignore_user_step(pre: State, engine: bool, post: State, fx: Seq<Effect>) -> bool {
    if engine && pre.new_ignore_user_id@.len() != 0 {
        post == (State { is_loading_ignored_users: true, ..pre }) && fx =~= seq![
            Effect::IgnoreUser(pre.new_ignore_user_id),
        ]
    } else {
        post == pre && fx.len() == 0
    }
}

/// What `UserIgnored` does.
#[verifier::inline]
pub open spec fn user_ignored_step(pre: State, res: Result<(), String>, engine: bool, post: State, fx: Seq<Effect>) -> bool {
    match res {
        Ok(_) => post.new_ignore_user_id@.len() == 0 && if engine {
            post == (State { is_loading_ignored_users: true, new_ignore_user_id: post.new_ignore_user_id, ..pre })
                && fx =~= seq![Effect::LoadIgnoredUsers]
        } else {
            post == (State { is_loading_ignored_users: false, new_ignore_user_id: post.new_ignore_user_id, ..pre })
                && fx.len() == 0
        },
        Err(e) => fx.len() == 0 && error_is(post, "Failed to ignore user: "@, e@) && post == (State { is_loading_ignored_users: false, error: post.error, ..pre }),
    }
}

/// What `UserUnignored` does.
#[verifier::inline]
pub open spec fn user_unignored_step(pre: State, who: String, res: Result<(), String>, engine: bool, post: State, fx: Seq<Effect>) -> bool {
    match res {
        Ok(_) => if engine {
            post == (State { is_loading_ignored_users: true, ..pre }) && fx =~= seq![Effect::LoadIgnoredUsers]
        } else {
            post == (State { is_loading_ignored_users: false, ..pre }) && fx.len() == 0
        },
        Err(e) => fx.len() == 0 && error_is(post, "Failed to unignore user: "@, e@) && post == (State { is_loading_ignored_users: false, error: post.error, ..pre }),
    }
}

/// What `ProfileLoaded` does.
#[verifier::inline]
pub open spec fn profile_loaded_step(pre: State, res: Result<Option<String>, String>, engine: bool, post: State, fx: Seq<Effect>) -> bool {
    fx.len() == 0 && match res {
        Ok(name) => post.display_name@ == match name {
            Some(n) => n@,
            None => Seq::empty(),
        } && post == (State {
            is_loading: false,
            display_name: post.display_name,
            original_display_name: post.display_name,
            ..pre
        }),
        Err(e) => error_is(post, "Failed to load profile name: "@, e@) && post == (State { is_loading: false, error: post.error, ..pre }),
    }
}

/// What `AvatarUrlLoaded` does.
#[verifier::inline]
pub open spec fn avatar_url_loaded_step(pre: State, res: Result<Option<String>, String>, engine: bool, post: State, fx: Seq<Effect>) -> bool {
    avatar_url_loaded(pre, res, engine, post, fx)
}

/// What `AvatarMediaFetched` does.
#[verifier::inline]
pub open spec fn avatar_media_fetched_step(pre: State, res: Result<Vec<u8>, String>, engine: bool, post: State, fx: Seq<Effect>) -> bool {
    match res {
        Ok(d) => post == (State { avatar_data: Some(d), ..pre }) && fx.len() == 0,
        Err(e) => failed(pre, "Failed to fetch avatar media: "@, e@, post, fx),
    }
}

/// What `SelectAvatar` does.
#[verifier::inline]
pub open spec fn select_avatar_step(pre: State, engine: bool, post: State, fx: Seq<Effect>) -> bool {
    post == pre && fx =~= seq![Effect::PickAvatarFile]
}

/// What `AvatarFileSelected` does.
#[verifier::inline]
pub open spec fn avatar_file_selected_step(pre: State, p: Option<String>, engine: bool, post: State, fx: Seq<Effect>) -> bool {
    match p {
        Some(path) => if engine {
            post == (State { is_uploading_avatar: true, error: None, ..pre }) && fx =~= seq![
                Effect::UploadAvatar(path),
            ]
        } else {
            post == pre && fx.len() == 0
        },
        None => post == pre && fx.len() == 0,
    }
}

/// What `AvatarUploaded` does.
#[verifier::inline]
pub open spec fn avatar_uploaded_step(pre: State, res: Result<String, String>, engine: bool, post: State, fx: Seq<Effect>) -> bool {
    match res {
        Ok(uri) => post == (State {
            is_uploading_avatar: false,
            is_loading_avatar: false,
            avatar_url: Some(uri),
            ..pre
        }) && if engine {
            fx =~= seq![Effect::FetchAvatar(uri)]
        } else {
            fx.len() == 0
        },
        Err(e) => fx.len() == 0 && error_is(post, "Failed to upload avatar: "@, e@) && post == (State { is_uploading_avatar: false, error: post.error, ..pre }),
    }
}

/// What `DisplayNameChanged` does.
#[verifier::inline]
pub open spec fn display_name_changed_step(pre: State, n: String, engine: bool, post: State, fx: Seq<Effect>) -> bool {
    post == (State { display_name: n, ..pre }) && fx.len() == 0
}

/// What `SaveProfile` does.
#[verifier::inline]
pub open spec fn save_profile_step(pre: State, engine: bool, post: State, fx: Seq<Effect>) -> bool {
    if engine && pre.display_name@ != pre.original_display_name@ {
        post == (State { is_saving: true, error: None, ..pre }) && fx =~= seq![
            Effect::SetDisplayName(
                if pre.display_name@.len() == 0 {
                    None
                } else {
                    Some(pre.display_name)
                },
            ),
        ]
    } else {
        post == pre && fx.len() == 0
    }
}

/// What `ProfileSaved` does.
#[verifier::inline]
pub open spec fn profile_saved_step(pre: State, res: Result<(), String>, engine: bool, post: State, fx: Seq<Effect>) -> bool {
    fx.len() == 0 && match res {
        Ok(_) => post == (State { is_saving: false, original_display_name: pre.display_name, ..pre }),
        Err(e) => error_is(post, "Failed to save profile: "@, e@) && post == (State { is_saving: false, error: post.error, ..pre }),
    }
}

/// What `GlobalNotificationModeLoaded` does.
#[verifier::inline]
pub open spec fn global_notification_mode_loaded_step(pre: State, dm: bool, mode: NotificationMode, engine: bool, post: State, fx: Seq<Effect>) -> bool {
    fx.len() == 0 && post == if dm {
        State { global_notification_mode_dm: Some(mode), ..pre }
    } else {
        State { global_notification_mode_group: Some(mode), ..pre }
    }
}

/// What `GlobalNotificationModeChanged` does.
#[verifier::inline]
pub open spec fn global_notification_mode_changed_step(pre: State, dm: bool, mode: NotificationMode, engine: bool, post: State, fx: Seq<Effect>) -> bool {
    if engine {
        fx =~= seq![Effect::SetDefaultNotificationMode { direct: dm, mode }] && if dm {
            post == (State { global_notification_mode_dm: Some(mode), is_loading_global_notifications: true, ..pre })
        } else {
            post == (State { global_notification_mode_group: Some(mode), is_loading_global_notifications: true, ..pre })
        }
    } else {
        fx.len() == 0 && if dm {
            post == (State { global_notification_mode_dm: Some(mode), ..pre })
        } else {
            post == (State { global_notification_mode_group: Some(mode), ..pre })
        }
    }
}

/// What `GlobalNotificationModeSet` does.
#[verifier::inline]
pub open spec fn global_notification_mode_set_step(pre: State, res: Result<(), String>, engine: bool, post: State, fx: Seq<Effect>) -> bool {
    fx.len() == 0 && match res {
        Ok(_) => post == (State { is_loading_global_notifications: false, ..pre }),
        Err(e) => error_is(post, "Failed to set notification mode: "@, e@) && post == (State { is_loading_global_notifications: false, error: post.error, ..pre }),
    }
}

/// What `DismissError` does.
#[verifier::inline]
pub open spec fn dismiss_error_step(pre: State, engine: bool, post: State, fx: Seq<Effect>) -> bool {
    post == (State { error: None, ..pre }) && fx.len() == 0
}

/// What `CurrentPasswordChanged` does.
#[verifier::inline]
pub open spec fn current_password_changed_step(pre: State, p: String, engine: bool, post: State, fx: Seq<Effect>) -> bool {
    post == (State { current_password: p, ..pre }) && fx.len() == 0
}

/// What `NewPasswordChanged` does.
#[verifier::inline]
pub open spec fn new_password_changed_step(pre: State, p: String, engine: bool, post: State, fx: Seq<Effect>) -> bool {
    post == (State { new_password: p, ..pre }) && fx.len() == 0
}

/// What `ConfirmNewPasswordChanged` does.
#[verifier::inline]
pub open spec fn confirm_new_password_changed_step(pre: State, p: String, engine: bool, post: State, fx: Seq<Effect>) -> bool {
    post == (State { confirm_new_password: p, ..pre })
        && fx.len() == 0
}

/// What `ChangePassword` does.
#[verifier::inline]
pub open spec fn change_password_step(pre: State, engine: bool, post: State, fx: Seq<Effect>) -> bool {
    if !engine {
        post == pre && fx.len() == 0
    } else if pre.new_password@ != pre.confirm_new_password@ {
        failed(pre, "New passwords do not match"@, Seq::empty(), post, fx)
    } else if pre.new_password@.len() == 0 || pre.current_password@.len() == 0 {
        failed(pre, "Passwords cannot be empty"@, Seq::empty(), post, fx)
    } else {
        post == (State { is_changing_password: true, error: None, password_success: None, ..pre })
            && fx =~= seq![Effect::ChangePassword { current: pre.current_password, new: pre.new_password }]
    }
}

/// What `PasswordChanged` does.
#[verifier::inline]
pub open spec fn password_changed_step(pre: State, res: Result<(), String>, engine: bool, post: State, fx: Seq<Effect>) -> bool {
    fx.len() == 0 && match res {
        Ok(_) => {
            &&& post.password_success matches Some(m) && m@ == "Password changed successfully"@
            &&& post.current_password@.len() == 0
            &&& post.new_password@.len() == 0
            &&& post.confirm_new_password@.len() == 0
            &&& post == (State {
                is_changing_password: false,
                password_success: post.password_success,
                current_password: post.current_password,
                new_password: post.new_password,
                confirm_new_password: post.confirm_new_password,
                ..pre
            })
        },
        Err(e) => error_is(post, "Failed to change password: "@, e@) && post == (State { is_changing_password: false, error: post.error, ..pre }),
    }
}

/// What `DismissPasswordSuccess` does.
#[verifier::inline]
pub open spec fn dismiss_password_success_step(pre: State, engine: bool, post: State, fx: Seq<Effect>) -> bool {
    post == (State { password_success: None, ..pre }) && fx.len() == 0
}

/// The transitions of the panel over messages about the profile, the
/// ignored users, the password and the notification modes.
pub open spec fn profile_transition(pre: State, m: Message, engine: bool, post: State, fx: Seq<Effect>) -> bool {
    match m {
        Message::LoadProfile => load_profile_step(pre, engine, post, fx),
        Message::IgnoreUserById(u) => ignore_user_by_id_step(pre, u, engine, post, fx),
        Message::UnignoreUserById(u) => unignore_user_by_id_step(pre, u, engine, post, fx),
        Message::UnignoreUser(u) => unignore_user_by_id_step(pre, u, engine, post, fx),
        Message::LoadIgnoredUsers => load_ignored_users_step(pre, engine, post, fx),
        Message::IgnoredUsersLoaded(res) => ignored_users_loaded_step(pre, res, engine, post, fx),
        Message::NewIgnoreUserIdChanged(u) => new_ignore_user_id_changed_step(pre, u, engine, post, fx),
        Message::IgnoreUser => ignore_user_step(pre, engine, post, fx),
        Message::UserIgnored(res) => user_ignored_step(pre, res, engine, post, fx),
        Message::UserUnignored(who, res) => user_unignored_step(pre, who, res, engine, post, fx),
        Message::ProfileLoaded(res) => profile_loaded_step(pre, res, engine, post, fx),
        Message::AvatarUrlLoaded(res) => avatar_url_loaded_step(pre, res, engine, post, fx),
        Message::AvatarMediaFetched(res) => avatar_media_fetched_step(pre, res, engine, post, fx),
        Message::SelectAvatar => select_avatar_step(pre, engine, post, fx),
        Message::AvatarFileSelected(p) => avatar_file_selected_step(pre, p, engine, post, fx),
        Message::AvatarUploaded(res) => avatar_uploaded_step(pre, res, engine, post, fx),
        Message::DisplayNameChanged(n) => display_name_changed_step(pre, n, engine, post, fx),
        Message::SaveProfile => save_profile_step(pre, engine, post, fx),
        Message::ProfileSaved(res) => profile_saved_step(pre, res, engine, post, fx),
        Message::GlobalNotificationModeLoaded(dm, mode) => global_notification_mode_loaded_step(pre, dm, mode, engine, post, fx),
        Message::GlobalNotificationModeChanged(dm, mode) => global_notification_mode_changed_step(pre, dm, mode, engine, post, fx),
        Message::GlobalNotificationModeSet(res) => global_notification_mode_set_step(pre, res, engine, post, fx),
        Message::DismissError => dismiss_error_step(pre, engine, post, fx),
        Message::CurrentPasswordChanged(p) => current_password_changed_step(pre, p, engine, post, fx),
        Message::NewPasswordChanged(p) => new_password_changed_step(pre, p, engine, post, fx),
        Message::ConfirmNewPasswordChanged(p) => confirm_new_password_changed_step(pre, p, engine, post, fx),
        Message::ChangePassword => change_password_step(pre, engine, post, fx),
        Message::PasswordChanged(res) => password_changed_step(pre, res, engine, post, fx),
        Message::DismissPasswordSuccess => dismiss_password_success_step(pre, engine, post, fx),
        _ => false,
    }
}

/// What `LoadDevices` does.
#[verifier::inline]
pub open spec fn load_devices_step(pre: State, engine: bool, post: State, fx: Seq<Effect>) -> bool {
    load_devices(pre, engine, post, fx)
}

/// What `DevicesLoaded` does.
#[verifier::inline]
pub open spec fn devices_loaded_step(pre: State, res: Result<Vec<DeviceInfo>, String>, engine: bool, post: State, fx: Seq<Effect>) -> bool {
    fx.len() == 0 && match res {
        Ok(d) => post == (State { is_loading_devices: false, devices: d, ..pre }),
        Err(e) => error_is(post, "Failed to load devices: "@, e@) && post == (State { is_loading_devices: false, error: post.error, ..pre }),
    }
}

/// What `VerifyDevice` does.
#[verifier::inline]
pub open spec fn verify_device_step(pre: State, id: String, engine: bool, post: State, fx: Seq<Effect>) -> bool {
    if engine {
        post == (State {
            error: None,
            verification_ui_state: VerificationUIState::WaitingForOtherDevice,
            ..pre
        }) && fx =~= seq![Effect::RequestVerification(id)]
    } else {
        post == pre && fx.len() == 0
    }
}

/// What `VerificationRequested` does.
#[verifier::inline]
pub open spec fn verification_requested_step(pre: State, res: Result<(), String>, engine: bool, post: State, fx: Seq<Effect>) -> bool {
    match res {
        Ok(_) => post == (State { has_verification_request: true, ..pre }) && fx =~= seq![
            Effect::WatchVerificationRequest,
        ],
        Err(e) => fx.len() == 0 && error_is(post, "Failed to request verification: "@, e@) && post == (State { verification_ui_state: VerificationUIState::Idle, error: post.error, ..pre }),
    }
}

/// What `VerificationRequestStateChanged` does.
#[verifier::inline]
pub open spec fn verification_request_state_changed_step(pre: State, st: RequestState, engine: bool, post: State, fx: Seq<Effect>) -> bool {
    match st {
        RequestState::Ready => post == pre && if pre.has_verification_request {
            fx =~= seq![Effect::StartSas]
        } else {
            fx.len() == 0
        },
        RequestState::Done => if engine {
            post == (State {
                verification_ui_state: VerificationUIState::Done,
                has_verification_request: false,
                has_sas: false,
                is_loading_devices: true,
                error: None,
                ..pre
            }) && fx =~= seq![Effect::LoadDevices]
        } else {
            post == (State {
                verification_ui_state: VerificationUIState::Done,
                has_verification_request: false,
                has_sas: false,
                ..pre
            }) && fx.len() == 0
        },
        RequestState::Cancelled => post == (State {
            verification_ui_state: VerificationUIState::Cancelled,
            has_verification_request: false,
            has_sas: false,
            ..pre
        }) && fx.len() == 0,
        RequestState::Other => post == pre && fx.len() == 0,
    }
}

/// What `SasStarted` does.
#[verifier::inline]
pub open spec fn sas_started_step(pre: State, res: Result<bool, String>, engine: bool, post: State, fx: Seq<Effect>) -> bool {
    match res {
        Ok(true) => post == (State { has_sas: true, ..pre }) && fx =~= seq![Effect::WatchSas],
        Ok(false) => fx.len() == 0 && error_is(post, "Other device does not support SAS verification."@, Seq::empty())
            && post == (State { verification_ui_state: VerificationUIState::Cancelled, error: post.error, ..pre }),
        Err(e) => fx.len() == 0 && error_is(post, "Failed to start SAS: "@, e@) && post == (State { verification_ui_state: VerificationUIState::Cancelled, error: post.error, ..pre }),
    }
}

/// What `SasStateChanged` does.
#[verifier::inline]
pub open spec fn sas_state_changed_step(pre: State, st: SasState, engine: bool, post: State, fx: Seq<Effect>) -> bool {
    match st {
        SasState::KeysExchanged(Some(emojis)) => post == (State {
            verification_ui_state: VerificationUIState::ShowingEmojis(emojis),
            ..pre
        }) && fx.len() == 0,
        SasState::Done => if engine {
            post == (State {
                verification_ui_state: VerificationUIState::Done,
                has_verification_request: false,
                has_sas: false,
                is_loading_devices: true,
                error: None,
                ..pre
            }) && fx =~= seq![Effect::LoadDevices]
        } else {
            post == (State {
                verification_ui_state: VerificationUIState::Done,
                has_verification_request: false,
                has_sas: false,
                ..pre
            }) && fx.len() == 0
        },
        SasState::Cancelled => post == (State {
            verification_ui_state: VerificationUIState::Cancelled,
            has_verification_request: false,
            has_sas: false,
            ..pre
        }) && fx.len() == 0,
        _ => post == pre && fx.len() == 0,
    }
}

/// What `ConfirmEmojis` does.
#[verifier::inline]
pub open spec fn confirm_emojis_step(pre: State, engine: bool, post: State, fx: Seq<Effect>) -> bool {
    post == pre && if pre.has_sas {
        fx =~= seq![Effect::ConfirmSas]
    } else {
        fx.len() == 0
    }
}

/// What `EmojisConfirmed` does.
#[verifier::inline]
pub open spec fn emojis_confirmed_step(pre: State, res: Result<(), String>, engine: bool, post: State, fx: Seq<Effect>) -> bool {
    match res {
        Ok(_) => post == pre && fx.len() == 0,
        Err(e) => failed(pre, "Failed to confirm emojis: "@, e@, post, fx),
    }
}

/// What `CancelVerification` does.
#[verifier::inline]
pub open spec fn cancel_verification_step(pre: State, engine: bool, post: State, fx: Seq<Effect>) -> bool {
    post == verification_ended(pre, VerificationUIState::Cancelled)
        && if pre.has_sas {
        fx =~= seq![Effect::CancelSas]
    } else if pre.has_verification_request {
        fx =~= seq![Effect::CancelVerificationRequest]
    } else {
        fx.len() == 0
    }
}

/// What `DeviceDeletePasswordChanged` does.
#[verifier::inline]
pub open spec fn device_delete_password_changed_step(pre: State, p: String, engine: bool, post: State, fx: Seq<Effect>) -> bool {
    post == (State { device_delete_password: p, ..pre })
        && fx.len() == 0
}

/// What `StartRenameDevice` does.
#[verifier::inline]
pub open spec fn start_rename_device_step(pre: State, id: String, engine: bool, post: State, fx: Seq<Effect>) -> bool {
    fx.len() == 0 && post == (State { devices: post.devices, ..pre })
        && match device_from(pre.devices@, id@, 0) {
        Some(i) => post.devices@ == pre.devices@.update(
            i,
            DeviceInfo { is_renaming: true, edit_name: post.devices@[i].edit_name, ..pre.devices@[i] },
        ) && post.devices@[i].edit_name@ == match pre.devices@[i].display_name {
            Some(n) => n@,
            None => Seq::empty(),
        },
        None => post.devices@ == pre.devices@,
    }
}

/// What `CancelRenameDevice` does.
#[verifier::inline]
pub open spec fn cancel_rename_device_step(pre: State, id: String, engine: bool, post: State, fx: Seq<Effect>) -> bool {
    fx.len() == 0 && post.devices@ == with_device(
        pre,
        id@,
        |d: DeviceInfo| DeviceInfo { is_renaming: false, ..d },
    ) && post == (State { devices: post.devices, ..pre })
}

/// What `EditDeviceNameChanged` does.
#[verifier::inline]
pub open spec fn edit_device_name_changed_step(pre: State, id: String, name: String, engine: bool, post: State, fx: Seq<Effect>) -> bool {
    fx.len() == 0 && post.devices@ == with_device(
        pre,
        id@,
        |d: DeviceInfo| DeviceInfo { edit_name: name, ..d },
    ) && post == (State { devices: post.devices, ..pre })
}

/// What `SaveDeviceName` does.
#[verifier::inline]
pub open spec fn save_device_name_step(pre: State, id: String, engine: bool, post: State, fx: Seq<Effect>) -> bool {
    match (engine, device_from(pre.devices@, id@, 0)) {
        (true, Some(i)) => post.devices@ == pre.devices@.update(
            i,
            DeviceInfo { is_renaming: false, ..pre.devices@[i] },
        ) && post == (State { devices: post.devices, ..pre }) && fx.len() == 1 && (
        fx[0] matches Effect::RenameDevice { device_id, name } && device_id@ == id@ && name
            == pre.devices@[i].edit_name),
        _ => post == pre && fx.len() == 0,
    }
}

/// What `DeviceRenamed` does.
#[verifier::inline]
pub open spec fn device_renamed_step(pre: State, id: String, res: Result<(), String>, engine: bool, post: State, fx: Seq<Effect>) -> bool {
    match res {
        Ok(_) => fx.len() == 0 && post.devices@ == with_device(
            pre,
            id@,
            |d: DeviceInfo| DeviceInfo { display_name: Some(d.edit_name), ..d },
        ) && post == (State { devices: post.devices, ..pre }),
        Err(e) => failed(pre, "Failed to rename device: "@, e@, post, fx),
    }
}

/// What `DeleteDevice` does.
#[verifier::inline]
pub open spec fn delete_device_step(pre: State, id: String, engine: bool, post: State, fx: Seq<Effect>) -> bool {
    match (engine, device_from(pre.devices@, id@, 0)) {
        (true, Some(i)) => post.devices@ == pre.devices@.update(
            i,
            DeviceInfo { is_deleting: true, ..pre.devices@[i] },
        ) && post == (State { devices: post.devices, ..pre }) && fx.len() == 1 && (
        fx[0] matches Effect::DeleteDevice { device_id, password } && device_id@ == id@ && password
            == pre.device_delete_password),
        _ => post == pre && fx.len() == 0,
    }
}

/// What `DeviceDeleted` does.
#[verifier::inline]
pub open spec fn device_deleted_step(pre: State, id: String, res: Result<(), String>, engine: bool, post: State, fx: Seq<Effect>) -> bool {
    let marked = with_device(pre, id@, |d: DeviceInfo| DeviceInfo { is_deleting: false, ..d });
    match res {
        Ok(_) => fx.len() == 0 && post.devices@ == marked.filter(
            |d: DeviceInfo| d.device_id@ != id@,
        ) && post.device_delete_password@.len() == 0 && post == (State {
            devices: post.devices,
            device_delete_password: post.device_delete_password,
            ..pre
        }),
        Err(e) => error_is(post, "Failed to delete device: "@, e@
            + ". You might need to provide a password below."@) && post.devices@ == marked
            && post == (State { devices: post.devices, error: post.error, ..pre }) && fx.len()
            == 0,
    }
}

/// What `DeactivatePasswordChanged` does.
#[verifier::inline]
pub open spec fn deactivate_password_changed_step(pre: State, p: String, engine: bool, post: State, fx: Seq<Effect>) -> bool {
    post == (State { deactivate_password: p, ..pre })
        && fx.len() == 0
}

/// What `DeactivateAccount` does.
#[verifier::inline]
pub open spec fn deactivate_account_step(pre: State, engine: bool, post: State, fx: Seq<Effect>) -> bool {
    if engine {
        post == (State { is_deactivating: true, error: None, ..pre }) && fx =~= seq![
            Effect::Deactivate { password: pre.deactivate_password },
        ]
    } else {
        post == pre && fx.len() == 0
    }
}

/// What `AccountDeactivated` does.
#[verifier::inline]
pub open spec fn account_deactivated_step(pre: State, res: Result<(), String>, engine: bool, post: State, fx: Seq<Effect>) -> bool {
    match res {
        Ok(_) => post == (State { is_deactivating: false, ..pre }) && fx =~= seq![Effect::Logout, Effect::CloseSettings],
        Err(e) => fx.len() == 0 && error_is(post, "Failed to deactivate account: "@, e@) && post == (State { is_deactivating: false, error: post.error, ..pre }),
    }
}

/// The transitions of the panel over messages about devices and their
/// verification, and about deactivating the account.
pub open spec fn device_transition(pre: State, m: Message, engine: bool, post: State, fx: Seq<Effect>) -> bool {
    match m {
        Message::LoadDevices => load_devices_step(pre, engine, post, fx),
        Message::DevicesLoaded(res) => devices_loaded_step(pre, res, engine, post, fx),
        Message::VerifyDevice(id) => verify_device_step(pre, id, engine, post, fx),
        Message::VerificationRequested(res) => verification_requested_step(pre, res, engine, post, fx),
        Message::VerificationRequestStateChanged(st) => verification_request_state_changed_step(pre, st, engine, post, fx),
        Message::SasStarted(res) => sas_started_step(pre, res, engine, post, fx),
        Message::SasStateChanged(st) => sas_state_changed_step(pre, st, engine, post, fx),
        Message::ConfirmEmojis => confirm_emojis_step(pre, engine, post, fx),
        Message::EmojisConfirmed(res) => emojis_confirmed_step(pre, res, engine, post, fx),
        Message::CancelVerification => cancel_verification_step(pre, engine, post, fx),
        Message::DeviceDeletePasswordChanged(p) => device_delete_password_changed_step(pre, p, engine, post, fx),
        Message::StartRenameDevice(id) => start_rename_device_step(pre, id, engine, post, fx),
        Message::CancelRenameDevice(id) => cancel_rename_device_step(pre, id, engine, post, fx),
        Message::EditDeviceNameChanged(id, name) => edit_device_name_changed_step(pre, id, name, engine, post, fx),
        Message::SaveDeviceName(id) => save_device_name_step(pre, id, engine, post, fx),
        Message::DeviceRenamed(id, res) => device_renamed_step(pre, id, res, engine, post, fx),
        Message::DeleteDevice(id) => delete_device_step(pre, id, engine, post, fx),
        Message::DeviceDeleted(id, res) => device_deleted_step(pre, id, res, engine, post, fx),
        Message::DeactivatePasswordChanged(p) => deactivate_password_changed_step(pre, p, engine, post, fx),
        Message::DeactivateAccount => deactivate_account_step(pre, engine, post, fx),
        Message::AccountDeactivated(res) => account_deactivated_step(pre, res, engine, post, fx),
        _ => false,
    }
}

/// What `LoadCrossSigningStatus` does.
#[verifier::inline]
pub open spec fn load_cross_signing_status_step(pre: State, engine: bool, post: State, fx: Seq<Effect>) -> bool {
    load_cross_signing(pre, engine, post, fx)
}

/// What `CrossSigningStatusLoaded` does.
#[verifier::inline]
pub open spec fn cross_signing_status_loaded_step(pre: State, res: Result<Option<CrossSigningInfo>, String>, engine: bool, post: State, fx: Seq<Effect>) -> bool {
    fx.len() == 0 && match res {
        Ok(info) => post == (State { is_loading_cross_signing: false, cross_signing_info: info, ..pre }),
        Err(e) => error_is(post, "Failed to load cross-signing status: "@, e@) && post == (State { is_loading_cross_signing: false, error: post.error, ..pre }),
    }
}

/// What `BootstrapCrossSigning` does.
#[verifier::inline]
pub open spec fn bootstrap_cross_signing_step(pre: State, engine: bool, post: State, fx: Seq<Effect>) -> bool {
    post == (State { is_bootstrapping: true, ..pre }) && if engine {
        fx =~= seq![Effect::BootstrapCrossSigning { password: pre.device_delete_password }]
    } else {
        fx.len() == 0
    }
}

/// What `CrossSigningBootstrapped` does.
#[verifier::inline]
pub open spec fn cross_signing_bootstrapped_step(pre: State, res: Result<(), String>, engine: bool, post: State, fx: Seq<Effect>) -> bool {
    match res {
        Ok(_) => post == (State { is_bootstrapping: false, is_loading_cross_signing: true, ..pre }) && if engine {
            fx =~= seq![Effect::LoadCrossSigningStatus]
        } else {
            fx.len() == 0
        },
        Err(e) => fx.len() == 0 && error_is(post, "Failed to bootstrap cross-signing: "@, e@) && post == (State { is_bootstrapping: false, error: post.error, ..pre }),
    }
}

/// What `ToggleMediaPreviewsDisplayPolicy` does.
#[verifier::inline]
pub open spec fn toggle_media_previews_display_policy_step(pre: State, b: bool, engine: bool, post: State, fx: Seq<Effect>) -> bool {
    post == (State {
        media_previews_display_policy: b,
        ..pre
    }) && if engine {
        fx =~= seq![Effect::SetMediaPreviewsPolicy(b)]
    } else {
        fx =~= seq![Effect::AppSettingChanged]
    }
}

/// What `ToggleInviteAvatarsDisplayPolicy` does.
#[verifier::inline]
pub open spec fn toggle_invite_avatars_display_policy_step(pre: State, b: bool, engine: bool, post: State, fx: Seq<Effect>) -> bool {
    post == (State {
        invite_avatars_display_policy: b,
        ..pre
    }) && if engine {
        fx =~= seq![Effect::SetInviteAvatarsPolicy(b)]
    } else {
        fx =~= seq![Effect::AppSettingChanged]
    }
}

/// What `Load3PIDs` does.
#[verifier::inline]
pub open spec fn load3pids_step(pre: State, engine: bool, post: State, fx: Seq<Effect>) -> bool {
    load_3pids(pre, engine, post, fx)
}

/// What `ThreepidsLoaded` does.
#[verifier::inline]
pub open spec fn threepids_loaded_step(pre: State, res: Result<Vec<Threepid>, String>, engine: bool, post: State, fx: Seq<Effect>) -> bool {
    fx.len() == 0 && match res {
        Ok(t) => post == (State { is_loading_3pids: false, threepids: t, ..pre }),
        Err(e) => error_is(post, "Failed to load 3PIDs: "@, e@) && post == (State { is_loading_3pids: false, error: post.error, ..pre }),
    }
}

/// What `New3PIDEmailChanged` does.
#[verifier::inline]
pub open spec fn new3pid_email_changed_step(pre: State, v: String, engine: bool, post: State, fx: Seq<Effect>) -> bool {
    post == (State { new_3pid_email: v, ..pre }) && fx.len() == 0
}

/// What `New3PIDMsisdnChanged` does.
#[verifier::inline]
pub open spec fn new3pid_msisdn_changed_step(pre: State, v: String, engine: bool, post: State, fx: Seq<Effect>) -> bool {
    post == (State { new_3pid_msisdn: v, ..pre }) && fx.len() == 0
}

/// What `New3PIDCountryCodeChanged` does.
#[verifier::inline]
pub open spec fn new3pid_country_code_changed_step(pre: State, v: String, engine: bool, post: State, fx: Seq<Effect>) -> bool {
    post == (State { new_3pid_country_code: v, ..pre })
        && fx.len() == 0
}

/// What `Add3PIDPasswordChanged` does.
#[verifier::inline]
pub open spec fn add3pid_password_changed_step(pre: State, v: String, engine: bool, post: State, fx: Seq<Effect>) -> bool {
    post == (State { add_3pid_password: v, ..pre }) && fx.len() == 0
}

/// What `Request3PIDEmailToken` does.
#[verifier::inline]
pub open spec fn request3pid_email_token_step(pre: State, secret: String, engine: bool, post: State, fx: Seq<Effect>) -> bool {
    if engine {
        post == (State {
            is_requesting_3pid_token: true,
            error: None,
            adding_3pid_client_secret: Some(secret),
            ..pre
        }) && fx =~= seq![Effect::RequestEmailToken { client_secret: secret, email: pre.new_3pid_email }]
    } else {
        post == pre && fx.len() == 0
    }
}

/// What `Request3PIDMsisdnToken` does.
#[verifier::inline]
pub open spec fn request3pid_msisdn_token_step(pre: State, secret: String, engine: bool, post: State, fx: Seq<Effect>) -> bool {
    if engine {
        post == (State {
            is_requesting_3pid_token: true,
            error: None,
            adding_3pid_client_secret: Some(secret),
            ..pre
        }) && fx =~= seq![
            Effect::RequestMsisdnToken {
                client_secret: secret,
                country: pre.new_3pid_country_code,
                msisdn: pre.new_3pid_msisdn,
            },
        ]
    } else {
        post == pre && fx.len() == 0
    }
}

/// What `ThreepidTokenRequested` does.
#[verifier::inline]
pub open spec fn threepid_token_requested_step(pre: State, res: Result<String, String>, engine: bool, post: State, fx: Seq<Effect>) -> bool {
    fx.len() == 0 && match res {
        Ok(sid) => (post.success_message matches Some(m) && m@
            == "Verification code sent. Please confirm the link/code and then provide your password to add it here."@)
            && post == (State {
            is_requesting_3pid_token: false,
            adding_3pid_sid: Some(sid),
            success_message: post.success_message,
            ..pre
        }),
        Err(e) => error_is(post, "Failed to request verification token: "@, e@) && post == (State { is_requesting_3pid_token: false, adding_3pid_client_secret: None, error: post.error, ..pre }),
    }
}

/// What `Add3PID` does.
#[verifier::inline]
pub open spec fn add3pid_step(pre: State, engine: bool, post: State, fx: Seq<Effect>) -> bool {
    post == pre && match (engine, pre.adding_3pid_sid, pre.adding_3pid_client_secret) {
        (true, Some(sid), Some(secret)) => fx =~= seq![
            Effect::Add3PID { sid, client_secret: secret, password: pre.add_3pid_password },
        ],
        _ => fx.len() == 0,
    }
}

/// What `ThreepidAdded` does.
#[verifier::inline]
pub open spec fn threepid_added_step(pre: State, res: Result<(), String>, engine: bool, post: State, fx: Seq<Effect>) -> bool {
    match res {
        Ok(_) => {
            &&& post.new_3pid_email@.len() == 0
            &&& post.new_3pid_msisdn@.len() == 0
            &&& post.add_3pid_password@.len() == 0
            &&& post == (State {
                new_3pid_email: post.new_3pid_email,
                new_3pid_msisdn: post.new_3pid_msisdn,
                add_3pid_password: post.add_3pid_password,
                adding_3pid_sid: None,
                adding_3pid_client_secret: None,
                is_loading_3pids: pre.is_loading_3pids || engine,
                ..pre
            })
            &&& if engine {
                fx =~= seq![Effect::Load3PIDs]
            } else {
                fx.len() == 0
            }
        },
        Err(e) => fx.len() == 0 && error_is(post, "Failed to add 3PID: "@, e@) && post == (State { error: post.error, ..pre }),
    }
}

/// What `DismissSuccessMessage` does.
#[verifier::inline]
pub open spec fn dismiss_success_message_step(pre: State, engine: bool, post: State, fx: Seq<Effect>) -> bool {
    post == (State { success_message: None, ..pre }) && fx.len() == 0
}

/// What `Delete3PID` does.
#[verifier::inline]
pub open spec fn delete3pid_step(pre: State, address: String, medium: Medium, engine: bool, post: State, fx: Seq<Effect>) -> bool {
    post == pre && if engine {
        fx =~= seq![Effect::Delete3PID { address, medium }]
    } else {
        fx.len() == 0
    }
}

/// What `ThreepidDeleted` does.
#[verifier::inline]
pub open spec fn threepid_deleted_step(pre: State, address: String, res: Result<(), String>, engine: bool, post: State, fx: Seq<Effect>) -> bool {
    match res {
        Ok(_) => fx.len() == 0 && post.threepids@ == pre.threepids@.filter(
            |t: Threepid| t.address@ != address@,
        ) && post == (State { threepids: post.threepids, ..pre }),
        Err(e) => failed(pre, "Failed to delete 3PID: "@, e@, post, fx),
    }
}

/// What `LoadKeywords` does.
#[verifier::inline]
pub open spec fn load_keywords_step(pre: State, engine: bool, post: State, fx: Seq<Effect>) -> bool {
    load_keywords(pre, engine, post, fx)
}

/// What `KeywordsLoaded` does.
#[verifier::inline]
pub open spec fn keywords_loaded_step(pre: State, k: Vec<String>, engine: bool, post: State, fx: Seq<Effect>) -> bool {
    post == (State { is_loading_keywords: false, keywords: k, ..pre })
        && fx.len() == 0
}

/// What `NewKeywordChanged` does.
#[verifier::inline]
pub open spec fn new_keyword_changed_step(pre: State, k: String, engine: bool, post: State, fx: Seq<Effect>) -> bool {
    post == (State { new_keyword: k, ..pre }) && fx.len() == 0
}

/// What `AddKeyword` does.
#[verifier::inline]
pub open spec fn add_keyword_step(pre: State, engine: bool, post: State, fx: Seq<Effect>) -> bool {
    if engine && pre.new_keyword@.len() != 0 {
        post == (State { is_loading_keywords: true, ..pre }) && fx =~= seq![Effect::AddKeyword(pre.new_keyword)]
    } else {
        post == pre && fx.len() == 0
    }
}

/// What `KeywordAdded` does.
#[verifier::inline]
pub open spec fn keyword_added_step(pre: State, res: Result<(), String>, engine: bool, post: State, fx: Seq<Effect>) -> bool {
    match res {
        Ok(_) => post.new_keyword@.len() == 0 && if engine {
            post == (State { new_keyword: post.new_keyword, is_loading_keywords: true, ..pre })
                && fx =~= seq![Effect::LoadKeywords]
        } else {
            post == (State { new_keyword: post.new_keyword, ..pre }) && fx.len() == 0
        },
        Err(e) => fx.len() == 0 && error_is(post, "Failed to add keyword: "@, e@) && post == (State { error: post.error, ..pre }),
    }
}

/// What `RemoveKeyword` does.
#[verifier::inline]
pub open spec fn remove_keyword_step(pre: State, k: String, engine: bool, post: State, fx: Seq<Effect>) -> bool {
    if engine {
        post == (State { is_loading_keywords: true, ..pre }) && fx =~= seq![Effect::RemoveKeyword(k)]
    } else {
        post == pre && fx.len() == 0
    }
}

/// What `KeywordRemoved` does.
#[verifier::inline]
pub open spec fn keyword_removed_step(pre: State, res: Result<(), String>, engine: bool, post: State, fx: Seq<Effect>) -> bool {
    match res {
        Ok(_) => if engine {
            post == (State { is_loading_keywords: true, ..pre }) && fx =~= seq![Effect::LoadKeywords]
        } else {
            post == pre && fx.len() == 0
        },
        Err(e) => fx.len() == 0 && error_is(post, "Failed to remove keyword: "@, e@) && post == (State { is_loading_keywords: false, error: post.error, ..pre }),
    }
}

/// The transitions of the panel over messages about cross-signing, the
/// display policies, contact addresses and keywords.
pub open spec fn account_transition(pre: State, m: Message, engine: bool, post: State, fx: Seq<Effect>) -> bool {
    match m {
        Message::LoadCrossSigningStatus => load_cross_signing_status_step(pre, engine, post, fx),
        Message::CrossSigningStatusLoaded(res) => cross_signing_status_loaded_step(pre, res, engine, post, fx),
        Message::BootstrapCrossSigning => bootstrap_cross_signing_step(pre, engine, post, fx),
        Message::CrossSigningBootstrapped(res) => cross_signing_bootstrapped_step(pre, res, engine, post, fx),
        Message::ToggleMediaPreviewsDisplayPolicy(b) => toggle_media_previews_display_policy_step(pre, b, engine, post, fx),
        Message::ToggleInviteAvatarsDisplayPolicy(b) => toggle_invite_avatars_display_policy_step(pre, b, engine, post, fx),
        Message::Load3PIDs => load3pids_step(pre, engine, post, fx),
        Message::ThreepidsLoaded(res) => threepids_loaded_step(pre, res, engine, post, fx),
        Message::New3PIDEmailChanged(v) => new3pid_email_changed_step(pre, v, engine, post, fx),
        Message::New3PIDMsisdnChanged(v) => new3pid_msisdn_changed_step(pre, v, engine, post, fx),
        Message::New3PIDCountryCodeChanged(v) => new3pid_country_code_changed_step(pre, v, engine, post, fx),
        Message::Add3PIDPasswordChanged(v) => add3pid_password_changed_step(pre, v, engine, post, fx),
        Message::Request3PIDEmailToken(secret) => request3pid_email_token_step(pre, secret, engine, post, fx),
        Message::Request3PIDMsisdnToken(secret) => request3pid_msisdn_token_step(pre, secret, engine, post, fx),
        Message::ThreepidTokenRequested(res) => threepid_token_requested_step(pre, res, engine, post, fx),
        Message::Add3PID => add3pid_step(pre, engine, post, fx),
        Message::ThreepidAdded(res) => threepid_added_step(pre, res, engine, post, fx),
        Message::DismissSuccessMessage => dismiss_success_message_step(pre, engine, post, fx),
        Message::Delete3PID(address, medium) => delete3pid_step(pre, address, medium, engine, post, fx),
        Message::ThreepidDeleted(address, res) => threepid_deleted_step(pre, address, res, engine, post, fx),
        Message::LoadKeywords => load_keywords_step(pre, engine, post, fx),
        Message::KeywordsLoaded(k) => keywords_loaded_step(pre, k, engine, post, fx),
        Message::NewKeywordChanged(k) => new_keyword_changed_step(pre, k, engine, post, fx),
        Message::AddKeyword => add_keyword_step(pre, engine, post, fx),
        Message::KeywordAdded(res) => keyword_added_step(pre, res, engine, post, fx),
        Message::RemoveKeyword(k) => remove_keyword_step(pre, k, engine, post, fx),
        Message::KeywordRemoved(res) => keyword_removed_step(pre, res, engine, post, fx),
        _ => false,
    }
}

/// The transitions of the panel: `post` and the effects `fx` are what
/// handling `m` in `pre` gives, `engine` telling whether there is a Matrix
/// engine.
pub open spec fn transition(pre: State, m: Message, engine: bool, post: State, fx: Seq<Effect>) -> bool {
    ||| profile_transition(pre, m, engine, post, fx)
    ||| device_transition(pre, m, engine, post, fx)
    ||| account_transition(pre, m, engine, post, fx)
}

fn find_device(devs: &Vec<DeviceInfo>, id: &str) -> (r: Option<usize>)
    ensures
        match r {
            Some(i) => i < devs@.len() && device_from(devs@, id@, 0) == Some(i as int),
            None => device_from(devs@, id@, 0) is None,
        },
{
    let mut i: usize = 0;
    while i < devs.len()
        invariant
            i <= devs@.len(),
            device_from(devs@, id@, 0) == device_from(devs@, id@, i as int),
        decreases devs@.len() - i,
    {
        if str_eq(devs[i].device_id.as_str(), id) {
            return Some(i);
        }
        i = i + 1;
    }
    None
}

/// The devices with the first one whose id is `id` no longer marked as
/// being deleted.
fn mark_not_deleting(devs: Vec<DeviceInfo>, id: &str) -> (r: Vec<DeviceInfo>)
    ensures
        r@ == device_list_with(devs@, id@, |d: DeviceInfo| DeviceInfo { is_deleting: false, ..d }),
{
    let mut devs = devs;
    if let Some(i) = find_device(&devs, id) {
        let mut d = devs[i].clone();
        d.is_deleting = false;
        devs.set(i, d);
    }
    devs
}

fn without_device(v: &Vec<DeviceInfo>, id: &str) -> (r: Vec<DeviceInfo>)
    ensures
        r@ == v@.filter(|d: DeviceInfo| d.device_id@ != id@),
{
    let mut r: Vec<DeviceInfo> = Vec::new();
    let mut i: usize = 0;
    while i < v.len()
        invariant
            i <= v@.len(),
            r@ == v@.take(i as int).filter(|d: DeviceInfo| d.device_id@ != id@),
        decreases v@.len() - i,
    {
        assert(v@.take(i + 1).drop_last() =~= v@.take(i as int));
        assert(v@.take(i + 1).last() == v@[i as int]);
        reveal_with_fuel(Seq::filter, 1);
        if !str_eq(v[i].device_id.as_str(), id) {
            r.push(v[i].clone());
        }
        i = i + 1;
    }
    assert(v@.take(v@.len() as int) =~= v@);
    r
}

fn without_threepid(v: &Vec<Threepid>, address: &str) -> (r: Vec<Threepid>)
    ensures
        r@ == v@.filter(|t: Threepid| t.address@ != address@),
{
    let mut r: Vec<Threepid> = Vec::new();
    let mut i: usize = 0;
    while i < v.len()
        invariant
            i <= v@.len(),
            r@ == v@.take(i as int).filter(|t: Threepid| t.address@ != address@),
        decreases v@.len() - i,
    {
        assert(v@.take(i + 1).drop_last() =~= v@.take(i as int));
        assert(v@.take(i + 1).last() == v@[i as int]);
        reveal_with_fuel(Seq::filter, 1);
        if !str_eq(v[i].address.as_str(), address) {
            r.push(v[i].clone());
        }
        i = i + 1;
    }
    assert(v@.take(v@.len() as int) =~= v@);
    r
}

/// The account panel as it opens: nothing loaded, nothing typed, no error;
/// media previews and invite avatars shown.
pub open spec fn is_initial(s: State) -> bool {
    &&& s.display_name@.len() == 0
    &&& s.original_display_name@.len() == 0
    &&& !s.is_loading
    &&& !s.is_saving
    &&& s.error is None
    &&& s.avatar_url is None
    &&& s.avatar_data is None
    &&& !s.is_uploading_avatar
    &&& !s.is_loading_avatar
    &&& s.current_password@.len() == 0
    &&& s.new_password@.len() == 0
    &&& s.confirm_new_password@.len() == 0
    &&& !s.is_changing_password
    &&& s.password_success is None
    &&& s.success_message is None
    &&& s.devices@.len() == 0
    &&& !s.is_loading_devices
    &&& !s.has_verification_request
    &&& !s.has_sas
    &&& s.verification_ui_state == VerificationUIState::Idle
    &&& s.device_delete_password@.len() == 0
    &&& s.global_notification_mode_dm is None
    &&& s.global_notification_mode_group is None
    &&& !s.is_loading_global_notifications
    &&& s.deactivate_password@.len() == 0
    &&& !s.is_deactivating
    &&& s.cross_signing_info is None
    &&& !s.is_loading_cross_signing
    &&& !s.is_bootstrapping
    &&& s.media_previews_display_policy
    &&& s.invite_avatars_display_policy
    &&& s.threepids@.len() == 0
    &&& !s.is_loading_3pids
    &&& s.new_3pid_email@.len() == 0
    &&& s.new_3pid_msisdn@.len() == 0
    &&& s.new_3pid_country_code@.len() == 0
    &&& !s.is_requesting_3pid_token
    &&& s.adding_3pid_sid is None
    &&& s.adding_3pid_client_secret is None
    &&& s.add_3pid_password@.len() == 0
    &&& s.keywords@.len() == 0
    &&& s.new_keyword@.len() == 0
    &&& !s.is_loading_keywords
    &&& s.ignored_users@.len() == 0
    &&& !s.is_loading_ignored_users
    &&& s.new_ignore_user_id@.len() == 0
}

impl Default for State {
    #[verifier::spinoff_prover]
    fn default() -> (s: Self)
        ensures
            is_initial(s),
    {
        State {
            display_name: String::new(),
            original_display_name: String::new(),
            is_loading: false,
            is_saving: false,
            error: None,
            avatar_url: None,
            avatar_data: None,
            is_uploading_avatar: false,
            is_loading_avatar: false,
            current_password: String::new(),
            new_password: String::new(),
            confirm_new_password: String::new(),
            is_changing_password: false,
            password_success: None,
            success_message: None,
            devices: Vec::new(),
            is_loading_devices: false,
            has_verification_request: false,
            has_sas: false,
            verification_ui_state: VerificationUIState::Idle,
            device_delete_password: String::new(),
            global_notification_mode_dm: None,
            global_notification_mode_group: None,
            is_loading_global_notifications: false,
            deactivate_password: String::new(),
            is_deactivating: false,
            cross_signing_info: None,
            is_loading_cross_signing: false,
            is_bootstrapping: false,
            media_previews_display_policy: true,
            invite_avatars_display_policy: true,
            threepids: Vec::new(),
            is_loading_3pids: false,
            new_3pid_email: String::new(),
            new_3pid_msisdn: String::new(),
            new_3pid_country_code: String::new(),
            is_requesting_3pid_token: false,
            adding_3pid_sid: None,
            adding_3pid_client_secret: None,
            add_3pid_password: String::new(),
            keywords: Vec::new(),
            new_keyword: String::new(),
            is_loading_keywords: false,
            ignored_users: Vec::new(),
            is_loading_ignored_users: false,
            new_ignore_user_id: String::new(),
        }
    }
}

impl State {
    /// The panel as the stored preferences set it up: the display policies
    /// come from them, everything else is as in `default`.
    #[verifier::spinoff_prover]
    pub fn from_config(config: &Config) -> (s: Self)
        ensures
            s.media_previews_display_policy == config.media_previews_display_policy,
            s.invite_avatars_display_policy == config.invite_avatars_display_policy,
            is_initial(State { media_previews_display_policy: true, invite_avatars_display_policy: true, ..s }),
    {
        let mut s = State::default();
        s.media_previews_display_policy = config.media_previews_display_policy;
        s.invite_avatars_display_policy = config.invite_avatars_display_policy;
        s
    }

    #[verifier::spinoff_prover]
    fn fail(&mut self, prefix: &str, e: &str)
        ensures
            error_is(*final(self), prefix@, e@),
            *final(self) == (State { error: final(self).error, ..*old(self) }),
    {
        self.error = Some(concat_str(prefix, e));
    }

    #[verifier::spinoff_prover]
    fn load_ignored(&mut self, has_engine: bool) -> (fx: Vec<Effect>)
        ensures
            load_ignored(*old(self), has_engine, *final(self), fx@),
    {
        if has_engine {
            self.is_loading_ignored_users = true;
            vec![Effect::LoadIgnoredUsers]
        } else {
            Vec::new()
        }
    }

    #[verifier::spinoff_prover]
    fn load_devices(&mut self, has_engine: bool) -> (fx: Vec<Effect>)
        ensures
            load_devices(*old(self), has_engine, *final(self), fx@),
    {
        if has_engine {
            self.is_loading_devices = true;
            self.error = None;
            vec![Effect::LoadDevices]
        } else {
            Vec::new()
        }
    }

    #[verifier::spinoff_prover]
    fn load_keywords(&mut self, has_engine: bool) -> (fx: Vec<Effect>)
        ensures
            load_keywords(*old(self), has_engine, *final(self), fx@),
    {
        if has_engine {
            self.is_loading_keywords = true;
            vec![Effect::LoadKeywords]
        } else {
            Vec::new()
        }
    }

    #[verifier::spinoff_prover]
    fn load_3pids(&mut self, has_engine: bool) -> (fx: Vec<Effect>)
        ensures
            load_3pids(*old(self), has_engine, *final(self), fx@),
    {
        if has_engine {
            self.is_loading_3pids = true;
            vec![Effect::Load3PIDs]
        } else {
            Vec::new()
        }
    }

    #[verifier::spinoff_prover]
    fn load_cross_signing(&mut self, has_engine: bool) -> (fx: Vec<Effect>)
        ensures
            load_cross_signing(*old(self), has_engine, *final(self), fx@),
    {
        if has_engine {
            self.is_loading_cross_signing = true;
            vec![Effect::LoadCrossSigningStatus]
        } else {
            self.is_loading_cross_signing = true;
            Vec::new()
        }
    }

    #[verifier::spinoff_prover]
    fn avatar_url_loaded(&mut self, res: Result<Option<String>, String>, has_engine: bool) -> (fx: Vec<Effect>)
        ensures
            avatar_url_loaded(*old(self), res, has_engine, *final(self), fx@),
    {
        match res {
            Ok(Some(url)) => self.avatar_url_found(url, has_engine),
            Ok(None) => self.avatar_url_missing(),
            Err(e) => self.avatar_url_failed(e),
        }
    }

    #[verifier::spinoff_prover]
    fn avatar_url_missing(&mut self) -> (fx: Vec<Effect>)
        ensures
            avatar_url_loaded(*old(self), Ok(None), false, *final(self), fx@),
    {
        self.is_loading_avatar = false;
        self.avatar_url = None;
        self.avatar_data = None;
        Vec::new()
    }

    #[verifier::spinoff_prover]
    fn avatar_url_failed(&mut self, e: String) -> (fx: Vec<Effect>)
        ensures
            avatar_url_loaded(*old(self), Err(e), false, *final(self), fx@),
    {
        self.is_loading_avatar = false;
        self.fail("Failed to load avatar URL: ", e.as_str());
        Vec::new()
    }

    #[verifier::spinoff_prover]
    fn avatar_url_found(&mut self, url: String, has_engine: bool) -> (fx: Vec<Effect>)
        ensures
            avatar_found(*old(self), url, has_engine, *final(self), fx@),
    {
        self.is_loading_avatar = false;
        self.avatar_url = Some(url.clone());
        if has_engine {
            vec![Effect::FetchAvatar(url)]
        } else {
            Vec::new()
        }
    }

    #[verifier::spinoff_prover]
    fn set_direct_mode(&mut self, mode: NotificationMode, has_engine: bool) -> (fx: Vec<Effect>)
        ensures
            global_notification_mode_changed_step(*old(self), true, mode, has_engine, *final(self), fx@),
    {
        if has_engine {
            self.is_loading_global_notifications = true;
            self.global_notification_mode_dm = Some(mode);
            return vec![Effect::SetDefaultNotificationMode { direct: true, mode }];
        } else {
            self.global_notification_mode_dm = Some(mode);
            return Vec::new();
        }
    }

    #[verifier::rlimit(30)]
    #[verifier::spinoff_prover]
    fn set_group_mode(&mut self, mode: NotificationMode, has_engine: bool) -> (fx: Vec<Effect>)
        ensures
            global_notification_mode_changed_step(*old(self), false, mode, has_engine, *final(self), fx@),
    {
        if has_engine {
            self.is_loading_global_notifications = true;
            self.global_notification_mode_group = Some(mode);
            return vec![Effect::SetDefaultNotificationMode { direct: false, mode }];
        } else {
            self.global_notification_mode_group = Some(mode);
            return Vec::new();
        }
    }

    #[verifier::spinoff_prover]
    fn change_matching_password(&mut self) -> (fx: Vec<Effect>)
        requires
            old(self).new_password@ == old(self).confirm_new_password@,
        ensures
            change_password_step(*old(self), true, *final(self), fx@),
    {
        if self.new_password.as_str().is_empty() || self.current_password.as_str().is_empty() {
            self.fail("Passwords cannot be empty", "");
            proof {
                reveal_strlit("");
            }
            return Vec::new();
        }
        let current = self.current_password.clone();
        let new = self.new_password.clone();
        self.is_changing_password = true;
        self.error = None;
        self.password_success = None;
        return vec![Effect::ChangePassword { current, new }];
    }

    #[verifier::spinoff_prover]
    fn verification_done(&mut self, has_engine: bool) -> (fx: Vec<Effect>)
        ensures
            has_engine ==> *final(self) == (State {
                verification_ui_state: VerificationUIState::Done,
                has_verification_request: false,
                has_sas: false,
                is_loading_devices: true,
                error: None,
                ..*old(self)
            }) && fx@ == seq![Effect::LoadDevices],
            !has_engine ==> *final(self) == (State {
                verification_ui_state: VerificationUIState::Done,
                has_verification_request: false,
                has_sas: false,
                ..*old(self)
            }) && fx@.len() == 0,
    {
        if has_engine {
            self.verification_ui_state = VerificationUIState::Done;
            self.has_verification_request = false;
            self.has_sas = false;
            self.is_loading_devices = true;
            self.error = None;
            return vec![Effect::LoadDevices];
        } else {
            self.verification_ui_state = VerificationUIState::Done;
            self.has_verification_request = false;
            self.has_sas = false;
            return Vec::new();
        }
    }

    #[verifier::spinoff_prover]
    fn verification_cancelled(&mut self)
        ensures
            *final(self) == (State {
                verification_ui_state: VerificationUIState::Cancelled,
                has_verification_request: false,
                has_sas: false,
                ..*old(self)
            }),
    {
        self.verification_ui_state = VerificationUIState::Cancelled;
        self.has_verification_request = false;
        self.has_sas = false;
    }

    #[verifier::spinoff_prover]
    fn end_verification(&mut self, ui: VerificationUIState)
        ensures
            *final(self) == verification_ended(*old(self), ui),
    {
        self.verification_ui_state = ui;
        self.has_verification_request = false;
        self.has_sas = false;
    }

    #[verifier::spinoff_prover]
    fn on_load_profile(&mut self, has_engine: bool) -> (fx: Vec<Effect>)
        ensures
            load_profile_step(*old(self), has_engine, *final(self), fx@),
    {
        if has_engine {
                self.is_loading = true;
                self.error = None;
                self.is_loading_avatar = true;
                vec![
                    Effect::FetchDisplayName,
                    Effect::FetchAvatarUrl,
                    Effect::Dispatch(Load::Devices),
                    Effect::Dispatch(Load::Threepids),
                    Effect::FetchDefaultNotificationMode(true),
                    Effect::FetchDefaultNotificationMode(false),
                    Effect::Dispatch(Load::CrossSigning),
                    Effect::Dispatch(Load::Keywords),
                    Effect::Dispatch(Load::IgnoredUsers),
                ]
            } else {
                Vec::new()
            }
    }

    #[verifier::spinoff_prover]
    fn on_ignore_user_by_id(&mut self, u: String, has_engine: bool) -> (fx: Vec<Effect>)
        ensures
            ignore_user_by_id_step(*old(self), u, has_engine, *final(self), fx@),
    {
        if has_engine {
                self.is_loading_ignored_users = true;
                vec![Effect::IgnoreUser(u)]
            } else {
                Vec::new()
            }
    }

    #[verifier::spinoff_prover]
    fn on_unignore_user_by_id(&mut self, u: String, has_engine: bool) -> (fx: Vec<Effect>)
        ensures
            unignore_user_by_id_step(*old(self), u, has_engine, *final(self), fx@),
    {
        if has_engine {
                self.is_loading_ignored_users = true;
                vec![Effect::UnignoreUser(u)]
            } else {
                Vec::new()
            }
    }

    #[verifier::spinoff_prover]
    fn on_load_ignored_users(&mut self, has_engine: bool) -> (fx: Vec<Effect>)
        ensures
            load_ignored_users_step(*old(self), has_engine, *final(self), fx@),
    {
        self.load_ignored(has_engine)
    }

    #[verifier::spinoff_prover]
    fn on_ignored_users_loaded(&mut self, res: Result<Vec<String>, String>, has_engine: bool) -> (fx: Vec<Effect>)
        ensures
            ignored_users_loaded_step(*old(self), res, has_engine, *final(self), fx@),
    {
        match res {
            Ok(users) => {
                self.is_loading_ignored_users = false;
                self.ignored_users = users;
                return Vec::new();
            },
            Err(e) => {
                self.is_loading_ignored_users = false;
                self.fail("Failed to load ignored users: ", e.as_str());
                return Vec::new();
            },
        }
    }

    #[verifier::spinoff_prover]
    fn on_new_ignore_user_id_changed(&mut self, u: String, has_engine: bool) -> (fx: Vec<Effect>)
        ensures
            new_ignore_user_id_changed_step(*old(self), u, has_engine, *final(self), fx@),
    {
        self.new_ignore_user_id = u;
        Vec::new()
    }

    #[verifier::spinoff_prover]
    fn on_ignore_user(&mut self, has_engine: bool) -> (fx: Vec<Effect>)
        ensures
            ignore_user_step(*old(self), has_engine, *final(self), fx@),
    {
        if has_engine && !self.new_ignore_user_id.as_str().is_empty() {
                self.is_loading_ignored_users = true;
                vec![Effect::IgnoreUser(self.new_ignore_user_id.clone())]
            } else {
                Vec::new()
            }
    }

    #[verifier::spinoff_prover]
    fn on_user_ignored(&mut self, res: Result<(), String>, has_engine: bool) -> (fx: Vec<Effect>)
        ensures
            user_ignored_step(*old(self), res, has_engine, *final(self), fx@),
    {
        match res {
            Ok(_) => {
                self.new_ignore_user_id = String::new();
                if has_engine {
                    self.is_loading_ignored_users = true;
                    return vec![Effect::LoadIgnoredUsers];
                } else {
                    self.is_loading_ignored_users = false;
                    return Vec::new();
                }
            },
            Err(e) => {
                self.is_loading_ignored_users = false;
                self.fail("Failed to ignore user: ", e.as_str());
                return Vec::new();
            },
        }
    }

    #[verifier::spinoff_prover]
    fn on_user_unignored(&mut self, who: String, res: Result<(), String>, has_engine: bool) -> (fx: Vec<Effect>)
        ensures
            user_unignored_step(*old(self), who, res, has_engine, *final(self), fx@),
    {
        match res {
            Ok(_) => {
                if has_engine {
                    self.is_loading_ignored_users = true;
                    return vec![Effect::LoadIgnoredUsers];
                } else {
                    self.is_loading_ignored_users = false;
                    return Vec::new();
                }
            },
            Err(e) => {
                self.is_loading_ignored_users = false;
                self.fail("Failed to unignore user: ", e.as_str());
                return Vec::new();
            },
        }
    }

    #[verifier::spinoff_prover]
    fn on_profile_loaded(&mut self, res: Result<Option<String>, String>, has_engine: bool) -> (fx: Vec<Effect>)
        ensures
            profile_loaded_step(*old(self), res, has_engine, *final(self), fx@),
    {
        match res {
            Ok(name) => {
                let name = match name {
                    Some(n) => n,
                    None => String::new(),
                };
                self.is_loading = false;
                self.display_name = name.clone();
                self.original_display_name = name;
                return Vec::new();
            },
            Err(e) => {
                self.is_loading = false;
                self.fail("Failed to load profile name: ", e.as_str());
                return Vec::new();
            },
        }
    }

    #[verifier::spinoff_prover]
    fn on_avatar_url_loaded(&mut self, res: Result<Option<String>, String>, has_engine: bool) -> (fx: Vec<Effect>)
        ensures
            avatar_url_loaded_step(*old(self), res, has_engine, *final(self), fx@),
    {
        self.avatar_url_loaded(res, has_engine)
    }

    #[verifier::spinoff_prover]
    fn on_avatar_media_fetched(&mut self, res: Result<Vec<u8>, String>, has_engine: bool) -> (fx: Vec<Effect>)
        ensures
            avatar_media_fetched_step(*old(self), res, has_engine, *final(self), fx@),
    {
        match res {
            Ok(d) => {
                self.avatar_data = Some(d);
            },
            Err(e) => {
                self.fail("Failed to fetch avatar media: ", e.as_str());
            },
        }
        Vec::new()
    }

    #[verifier::spinoff_prover]
    fn on_select_avatar(&mut self, has_engine: bool) -> (fx: Vec<Effect>)
        ensures
            select_avatar_step(*old(self), has_engine, *final(self), fx@),
    {
        vec![Effect::PickAvatarFile]
    }

    #[verifier::spinoff_prover]
    fn on_avatar_file_selected(&mut self, p: Option<String>, has_engine: bool) -> (fx: Vec<Effect>)
        ensures
            avatar_file_selected_step(*old(self), p, has_engine, *final(self), fx@),
    {
        match p {
                Some(path) => if has_engine {
                    self.is_uploading_avatar = true;
                    self.error = None;
                    vec![Effect::UploadAvatar(path)]
                } else {
                    Vec::new()
                },
                None => Vec::new(),
            }
    }

    #[verifier::spinoff_prover]
    fn on_avatar_uploaded(&mut self, res: Result<String, String>, has_engine: bool) -> (fx: Vec<Effect>)
        ensures
            avatar_uploaded_step(*old(self), res, has_engine, *final(self), fx@),
    {
        match res {
            Ok(uri) => {
                self.is_uploading_avatar = false;
                self.is_loading_avatar = false;
                self.avatar_url = Some(uri.clone());
                if has_engine {
                    return vec![Effect::FetchAvatar(uri)];
                } else {
                    return Vec::new();
                }
            },
            Err(e) => {
                self.is_uploading_avatar = false;
                self.fail("Failed to upload avatar: ", e.as_str());
                return Vec::new();
            },
        }
    }

    #[verifier::spinoff_prover]
    fn on_display_name_changed(&mut self, n: String, has_engine: bool) -> (fx: Vec<Effect>)
        ensures
            display_name_changed_step(*old(self), n, has_engine, *final(self), fx@),
    {
        self.display_name = n;
        Vec::new()
    }

    #[verifier::spinoff_prover]
    fn on_save_profile(&mut self, has_engine: bool) -> (fx: Vec<Effect>)
        ensures
            save_profile_step(*old(self), has_engine, *final(self), fx@),
    {
        if has_engine && self.display_name != self.original_display_name {
                self.is_saving = true;
                self.error = None;
                let name = if self.display_name.as_str().is_empty() {
                    None
                } else {
                    Some(self.display_name.clone())
                };
                vec![Effect::SetDisplayName(name)]
            } else {
                Vec::new()
            }
    }

    #[verifier::spinoff_prover]
    fn on_profile_saved(&mut self, res: Result<(), String>, has_engine: bool) -> (fx: Vec<Effect>)
        ensures
            profile_saved_step(*old(self), res, has_engine, *final(self), fx@),
    {
        match res {
            Ok(_) => {
                self.is_saving = false;
                self.original_display_name = self.display_name.clone();
                return Vec::new();
            },
            Err(e) => {
                self.is_saving = false;
                self.fail("Failed to save profile: ", e.as_str());
                return Vec::new();
            },
        }
    }

    #[verifier::spinoff_prover]
    fn on_global_notification_mode_loaded(&mut self, dm: bool, mode: NotificationMode, has_engine: bool) -> (fx: Vec<Effect>)
        ensures
            global_notification_mode_loaded_step(*old(self), dm, mode, has_engine, *final(self), fx@),
    {
        if dm {
            self.global_notification_mode_dm = Some(mode);
        } else {
            self.global_notification_mode_group = Some(mode);
        }
        Vec::new()
    }

    #[verifier::spinoff_prover]
    fn on_global_notification_mode_changed(&mut self, dm: bool, mode: NotificationMode, has_engine: bool) -> (fx: Vec<Effect>)
        ensures
            global_notification_mode_changed_step(*old(self), dm, mode, has_engine, *final(self), fx@),
    {
        if dm {
            return self.set_direct_mode(mode, has_engine);
        } else {
            return self.set_group_mode(mode, has_engine);
        }
    }

    #[verifier::spinoff_prover]
    fn on_global_notification_mode_set(&mut self, res: Result<(), String>, has_engine: bool) -> (fx: Vec<Effect>)
        ensures
            global_notification_mode_set_step(*old(self), res, has_engine, *final(self), fx@),
    {
        match res {
            Ok(_) => {
                self.is_loading_global_notifications = false;
                return Vec::new();
            },
            Err(e) => {
                self.is_loading_global_notifications = false;
                self.fail("Failed to set notification mode: ", e.as_str());
                return Vec::new();
            },
        }
    }

    #[verifier::spinoff_prover]
    fn on_dismiss_error(&mut self, has_engine: bool) -> (fx: Vec<Effect>)
        ensures
            dismiss_error_step(*old(self), has_engine, *final(self), fx@),
    {
        self.error = None;
        Vec::new()
    }

    #[verifier::spinoff_prover]
    fn on_current_password_changed(&mut self, p: String, has_engine: bool) -> (fx: Vec<Effect>)
        ensures
            current_password_changed_step(*old(self), p, has_engine, *final(self), fx@),
    {
        self.current_password = p;
        Vec::new()
    }

    #[verifier::spinoff_prover]
    fn on_new_password_changed(&mut self, p: String, has_engine: bool) -> (fx: Vec<Effect>)
        ensures
            new_password_changed_step(*old(self), p, has_engine, *final(self), fx@),
    {
        self.new_password = p;
        Vec::new()
    }

    #[verifier::spinoff_prover]
    fn on_confirm_new_password_changed(&mut self, p: String, has_engine: bool) -> (fx: Vec<Effect>)
        ensures
            confirm_new_password_changed_step(*old(self), p, has_engine, *final(self), fx@),
    {
        self.confirm_new_password = p;
        Vec::new()
    }

    #[verifier::spinoff_prover]
    fn on_change_password(&mut self, has_engine: bool) -> (fx: Vec<Effect>)
        ensures
            change_password_step(*old(self), has_engine, *final(self), fx@),
    {
        if !has_engine {
            return Vec::new();
        }
        if !str_eq(self.new_password.as_str(), self.confirm_new_password.as_str()) {
            self.fail("New passwords do not match", "");
            proof {
                reveal_strlit("");
            }
            return Vec::new();
        }
        return self.change_matching_password();
    }

    #[verifier::spinoff_prover]
    fn on_password_changed(&mut self, res: Result<(), String>, has_engine: bool) -> (fx: Vec<Effect>)
        ensures
            password_changed_step(*old(self), res, has_engine, *final(self), fx@),
    {
        match res {
            Ok(_) => {
                self.is_changing_password = false;
                self.password_success = Some("Password changed successfully".to_owned());
                self.current_password = String::new();
                self.new_password = String::new();
                self.confirm_new_password = String::new();
                return Vec::new();
            },
            Err(e) => {
                self.is_changing_password = false;
                self.fail("Failed to change password: ", e.as_str());
                return Vec::new();
            },
        }
    }

    #[verifier::spinoff_prover]
    fn on_dismiss_password_success(&mut self, has_engine: bool) -> (fx: Vec<Effect>)
        ensures
            dismiss_password_success_step(*old(self), has_engine, *final(self), fx@),
    {
        self.password_success = None;
        Vec::new()
    }

    #[verifier::spinoff_prover]
    fn on_load_devices(&mut self, has_engine: bool) -> (fx: Vec<Effect>)
        ensures
            load_devices_step(*old(self), has_engine, *final(self), fx@),
    {
        self.load_devices(has_engine)
    }

    #[verifier::spinoff_prover]
    fn on_devices_loaded(&mut self, res: Result<Vec<DeviceInfo>, String>, has_engine: bool) -> (fx: Vec<Effect>)
        ensures
            devices_loaded_step(*old(self), res, has_engine, *final(self), fx@),
    {
        match res {
            Ok(d) => {
                self.is_loading_devices = false;
                self.devices = d;
                return Vec::new();
            },
            Err(e) => {
                self.is_loading_devices = false;
                self.fail("Failed to load devices: ", e.as_str());
                return Vec::new();
            },
        }
    }

    #[verifier::spinoff_prover]
    fn on_verify_device(&mut self, id: String, has_engine: bool) -> (fx: Vec<Effect>)
        ensures
            verify_device_step(*old(self), id, has_engine, *final(self), fx@),
    {
        if has_engine {
                self.error = None;
                self.verification_ui_state = VerificationUIState::WaitingForOtherDevice;
                vec![Effect::RequestVerification(id)]
            } else {
                Vec::new()
            }
    }

    #[verifier::spinoff_prover]
    fn on_verification_requested(&mut self, res: Result<(), String>, has_engine: bool) -> (fx: Vec<Effect>)
        ensures
            verification_requested_step(*old(self), res, has_engine, *final(self), fx@),
    {
        match res {
            Ok(_) => {
                self.has_verification_request = true;
                return vec![Effect::WatchVerificationRequest];
            },
            Err(e) => {
                self.verification_ui_state = VerificationUIState::Idle;
                self.fail("Failed to request verification: ", e.as_str());
                return Vec::new();
            },
        }
    }

    #[verifier::rlimit(40)]
    #[verifier::spinoff_prover]
    fn on_verification_request_state_changed(&mut self, st: RequestState, has_engine: bool) -> (fx: Vec<Effect>)
        ensures
            verification_request_state_changed_step(*old(self), st, has_engine, *final(self), fx@),
    {
        match st {
            RequestState::Ready => {
                if self.has_verification_request {
                    return vec![Effect::StartSas];
                } else {
                    return Vec::new();
                }
            },
            RequestState::Done => {
                return self.verification_done(has_engine);
            },
            RequestState::Cancelled => {
                self.verification_cancelled();
                return Vec::new();
            },
            RequestState::Other => {
                return Vec::new();
            },
        }
    }

    #[verifier::spinoff_prover]
    fn on_sas_started(&mut self, res: Result<bool, String>, has_engine: bool) -> (fx: Vec<Effect>)
        ensures
            sas_started_step(*old(self), res, has_engine, *final(self), fx@),
    {
        match res {
            Ok(true) => {
                self.has_sas = true;
                return vec![Effect::WatchSas];
            },
            Ok(false) => {
                self.verification_ui_state = VerificationUIState::Cancelled;
                self.fail("Other device does not support SAS verification.", "");
                proof {
                    reveal_strlit("");
                }
                return Vec::new();
            },
            Err(e) => {
                self.verification_ui_state = VerificationUIState::Cancelled;
                self.fail("Failed to start SAS: ", e.as_str());
                return Vec::new();
            },
        }
    }

    #[verifier::spinoff_prover]
    fn on_sas_state_changed(&mut self, st: SasState, has_engine: bool) -> (fx: Vec<Effect>)
        ensures
            sas_state_changed_step(*old(self), st, has_engine, *final(self), fx@),
    {
        match st {
            SasState::KeysExchanged(Some(emojis)) => {
                self.verification_ui_state = VerificationUIState::ShowingEmojis(emojis);
                return Vec::new();
            },
            SasState::Done => {
                return self.verification_done(has_engine);
            },
            SasState::Cancelled => {
                self.verification_cancelled();
                return Vec::new();
            },
            _ => {
                return Vec::new();
            },
        }
    }

    #[verifier::spinoff_prover]
    fn on_confirm_emojis(&mut self, has_engine: bool) -> (fx: Vec<Effect>)
        ensures
            confirm_emojis_step(*old(self), has_engine, *final(self), fx@),
    {
        if self.has_sas {
                vec![Effect::ConfirmSas]
            } else {
                Vec::new()
            }
    }

    #[verifier::spinoff_prover]
    fn on_emojis_confirmed(&mut self, res: Result<(), String>, has_engine: bool) -> (fx: Vec<Effect>)
        ensures
            emojis_confirmed_step(*old(self), res, has_engine, *final(self), fx@),
    {
        match res {
            Ok(_) => {
                return Vec::new();
            },
            Err(e) => {
                self.fail("Failed to confirm emojis: ", e.as_str());
                return Vec::new();
            },
        }
    }

    #[verifier::spinoff_prover]
    fn on_cancel_verification(&mut self, has_engine: bool) -> (fx: Vec<Effect>)
        ensures
            cancel_verification_step(*old(self), has_engine, *final(self), fx@),
    {
        let fx = if self.has_sas {
            vec![Effect::CancelSas]
        } else if self.has_verification_request {
            vec![Effect::CancelVerificationRequest]
        } else {
            Vec::new()
        };
        self.end_verification(VerificationUIState::Cancelled);
        fx
    }

    #[verifier::spinoff_prover]
    fn on_device_delete_password_changed(&mut self, p: String, has_engine: bool) -> (fx: Vec<Effect>)
        ensures
            device_delete_password_changed_step(*old(self), p, has_engine, *final(self), fx@),
    {
        self.device_delete_password = p;
        Vec::new()
    }

    #[verifier::spinoff_prover]
    fn on_start_rename_device(&mut self, id: String, has_engine: bool) -> (fx: Vec<Effect>)
        ensures
            start_rename_device_step(*old(self), id, has_engine, *final(self), fx@),
    {
        if let Some(i) = find_device(&self.devices, id.as_str()) {
            let mut d = self.devices[i].clone();
            d.is_renaming = true;
            d.edit_name = match &d.display_name {
                Some(n) => n.clone(),
                None => String::new(),
            };
            self.devices.set(i, d);
        }
        Vec::new()
    }

    #[verifier::spinoff_prover]
    fn on_cancel_rename_device(&mut self, id: String, has_engine: bool) -> (fx: Vec<Effect>)
        ensures
            cancel_rename_device_step(*old(self), id, has_engine, *final(self), fx@),
    {
        if let Some(i) = find_device(&self.devices, id.as_str()) {
            let mut d = self.devices[i].clone();
            d.is_renaming = false;
            self.devices.set(i, d);
        }
        Vec::new()
    }

    #[verifier::spinoff_prover]
    fn on_edit_device_name_changed(&mut self, id: String, name: String, has_engine: bool) -> (fx: Vec<Effect>)
        ensures
            edit_device_name_changed_step(*old(self), id, name, has_engine, *final(self), fx@),
    {
        if let Some(i) = find_device(&self.devices, id.as_str()) {
            let mut d = self.devices[i].clone();
            d.edit_name = name;
            self.devices.set(i, d);
        }
        Vec::new()
    }

    #[verifier::spinoff_prover]
    fn on_save_device_name(&mut self, id: String, has_engine: bool) -> (fx: Vec<Effect>)
        ensures
            save_device_name_step(*old(self), id, has_engine, *final(self), fx@),
    {
        match find_device(&self.devices, id.as_str()) {
                Some(i) => if has_engine {
                    let mut d = self.devices[i].clone();
                    d.is_renaming = false;
                    let name = d.edit_name.clone();
                    self.devices.set(i, d);
                    vec![Effect::RenameDevice { device_id: id, name }]
                } else {
                    Vec::new()
                },
                None => Vec::new(),
            }
    }

    #[verifier::spinoff_prover]
    fn on_device_renamed(&mut self, id: String, res: Result<(), String>, has_engine: bool) -> (fx: Vec<Effect>)
        ensures
            device_renamed_step(*old(self), id, res, has_engine, *final(self), fx@),
    {
        match res {
            Ok(_) => {
                if let Some(i) = find_device(&self.devices, id.as_str()) {
                    let mut d = self.devices[i].clone();
                    d.display_name = Some(d.edit_name.clone());
                    self.devices.set(i, d);
                    return Vec::new();
                } else {
                    return Vec::new();
                }
            },
            Err(e) => {
                self.fail("Failed to rename device: ", e.as_str());
                return Vec::new();
            },
        }
    }

    #[verifier::spinoff_prover]
    fn on_delete_device(&mut self, id: String, has_engine: bool) -> (fx: Vec<Effect>)
        ensures
            delete_device_step(*old(self), id, has_engine, *final(self), fx@),
    {
        match find_device(&self.devices, id.as_str()) {
                Some(i) => if has_engine {
                    let mut d = self.devices[i].clone();
                    d.is_deleting = true;
                    self.devices.set(i, d);
                    vec![Effect::DeleteDevice { device_id: id, password: self.device_delete_password.clone() }]
                } else {
                    Vec::new()
                },
                None => Vec::new(),
            }
    }

    #[verifier::spinoff_prover]
    fn on_device_deleted(&mut self, id: String, res: Result<(), String>, has_engine: bool) -> (fx: Vec<Effect>)
        ensures
            device_deleted_step(*old(self), id, res, has_engine, *final(self), fx@),
    {
        match res {
            Ok(_) => {
                let mut devs: Vec<DeviceInfo> = Vec::new();
                std::mem::swap(&mut devs, &mut self.devices);
                let marked = mark_not_deleting(devs, id.as_str());
                self.devices = without_device(&marked, id.as_str());
                self.device_delete_password = String::new();
                return Vec::new();
            },
            Err(e) => {
                let mut devs: Vec<DeviceInfo> = Vec::new();
                std::mem::swap(&mut devs, &mut self.devices);
                self.devices = mark_not_deleting(devs, id.as_str());
                let reason = concat_str(e.as_str(), ". You might need to provide a password below.");
                self.fail("Failed to delete device: ", reason.as_str());
                return Vec::new();
            },
        }
    }

    #[verifier::spinoff_prover]
    fn on_deactivate_password_changed(&mut self, p: String, has_engine: bool) -> (fx: Vec<Effect>)
        ensures
            deactivate_password_changed_step(*old(self), p, has_engine, *final(self), fx@),
    {
        self.deactivate_password = p;
        Vec::new()
    }

    #[verifier::spinoff_prover]
    fn on_deactivate_account(&mut self, has_engine: bool) -> (fx: Vec<Effect>)
        ensures
            deactivate_account_step(*old(self), has_engine, *final(self), fx@),
    {
        if has_engine {
                self.is_deactivating = true;
                self.error = None;
                vec![Effect::Deactivate { password: self.deactivate_password.clone() }]
            } else {
                Vec::new()
            }
    }

    #[verifier::spinoff_prover]
    fn on_account_deactivated(&mut self, res: Result<(), String>, has_engine: bool) -> (fx: Vec<Effect>)
        ensures
            account_deactivated_step(*old(self), res, has_engine, *final(self), fx@),
    {
        match res {
            Ok(_) => {
                self.is_deactivating = false;
                return vec![Effect::Logout, Effect::CloseSettings];
            },
            Err(e) => {
                self.is_deactivating = false;
                self.fail("Failed to deactivate account: ", e.as_str());
                return Vec::new();
            },
        }
    }

    #[verifier::spinoff_prover]
    fn on_load_cross_signing_status(&mut self, has_engine: bool) -> (fx: Vec<Effect>)
        ensures
            load_cross_signing_status_step(*old(self), has_engine, *final(self), fx@),
    {
        self.load_cross_signing(has_engine)
    }

    #[verifier::spinoff_prover]
    fn on_cross_signing_status_loaded(&mut self, res: Result<Option<CrossSigningInfo>, String>, has_engine: bool) -> (fx: Vec<Effect>)
        ensures
            cross_signing_status_loaded_step(*old(self), res, has_engine, *final(self), fx@),
    {
        match res {
            Ok(info) => {
                self.is_loading_cross_signing = false;
                self.cross_signing_info = info;
                return Vec::new();
            },
            Err(e) => {
                self.is_loading_cross_signing = false;
                self.fail("Failed to load cross-signing status: ", e.as_str());
                return Vec::new();
            },
        }
    }

    #[verifier::spinoff_prover]
    fn on_bootstrap_cross_signing(&mut self, has_engine: bool) -> (fx: Vec<Effect>)
        ensures
            bootstrap_cross_signing_step(*old(self), has_engine, *final(self), fx@),
    {
        self.is_bootstrapping = true;
        if has_engine {
            vec![Effect::BootstrapCrossSigning { password: self.device_delete_password.clone() }]
        } else {
            Vec::new()
        }
    }

    #[verifier::spinoff_prover]
    fn on_cross_signing_bootstrapped(&mut self, res: Result<(), String>, has_engine: bool) -> (fx: Vec<Effect>)
        ensures
            cross_signing_bootstrapped_step(*old(self), res, has_engine, *final(self), fx@),
    {
        match res {
            Ok(_) => {
                if has_engine {
                    self.is_bootstrapping = false;
                    self.is_loading_cross_signing = true;
                    return vec![Effect::LoadCrossSigningStatus];
                } else {
                    self.is_bootstrapping = false;
                    self.is_loading_cross_signing = true;
                    return Vec::new();
                }
            },
            Err(e) => {
                self.is_bootstrapping = false;
                self.fail("Failed to bootstrap cross-signing: ", e.as_str());
                return Vec::new();
            },
        }
    }

    #[verifier::spinoff_prover]
    fn on_toggle_media_previews_display_policy(&mut self, b: bool, has_engine: bool) -> (fx: Vec<Effect>)
        ensures
            toggle_media_previews_display_policy_step(*old(self), b, has_engine, *final(self), fx@),
    {
        self.media_previews_display_policy = b;
        if has_engine {
            vec![Effect::SetMediaPreviewsPolicy(b)]
        } else {
            vec![Effect::AppSettingChanged]
        }
    }

    #[verifier::spinoff_prover]
    fn on_toggle_invite_avatars_display_policy(&mut self, b: bool, has_engine: bool) -> (fx: Vec<Effect>)
        ensures
            toggle_invite_avatars_display_policy_step(*old(self), b, has_engine, *final(self), fx@),
    {
        self.invite_avatars_display_policy = b;
        if has_engine {
            vec![Effect::SetInviteAvatarsPolicy(b)]
        } else {
            vec![Effect::AppSettingChanged]
        }
    }

    #[verifier::spinoff_prover]
    fn on_load3pids(&mut self, has_engine: bool) -> (fx: Vec<Effect>)
        ensures
            load3pids_step(*old(self), has_engine, *final(self), fx@),
    {
        self.load_3pids(has_engine)
    }

    #[verifier::spinoff_prover]
    fn on_threepids_loaded(&mut self, res: Result<Vec<Threepid>, String>, has_engine: bool) -> (fx: Vec<Effect>)
        ensures
            threepids_loaded_step(*old(self), res, has_engine, *final(self), fx@),
    {
        match res {
            Ok(t) => {
                self.is_loading_3pids = false;
                self.threepids = t;
                return Vec::new();
            },
            Err(e) => {
                self.is_loading_3pids = false;
                self.fail("Failed to load 3PIDs: ", e.as_str());
                return Vec::new();
            },
        }
    }

    #[verifier::spinoff_prover]
    fn on_new3pid_email_changed(&mut self, v: String, has_engine: bool) -> (fx: Vec<Effect>)
        ensures
            new3pid_email_changed_step(*old(self), v, has_engine, *final(self), fx@),
    {
        self.new_3pid_email = v;
        Vec::new()
    }

    #[verifier::spinoff_prover]
    fn on_new3pid_msisdn_changed(&mut self, v: String, has_engine: bool) -> (fx: Vec<Effect>)
        ensures
            new3pid_msisdn_changed_step(*old(self), v, has_engine, *final(self), fx@),
    {
        self.new_3pid_msisdn = v;
        Vec::new()
    }

    #[verifier::spinoff_prover]
    fn on_new3pid_country_code_changed(&mut self, v: String, has_engine: bool) -> (fx: Vec<Effect>)
        ensures
            new3pid_country_code_changed_step(*old(self), v, has_engine, *final(self), fx@),
    {
        self.new_3pid_country_code = v;
        Vec::new()
    }

    #[verifier::spinoff_prover]
    fn on_add3pid_password_changed(&mut self, v: String, has_engine: bool) -> (fx: Vec<Effect>)
        ensures
            add3pid_password_changed_step(*old(self), v, has_engine, *final(self), fx@),
    {
        self.add_3pid_password = v;
        Vec::new()
    }

    #[verifier::spinoff_prover]
    fn on_request3pid_email_token(&mut self, secret: String, has_engine: bool) -> (fx: Vec<Effect>)
        ensures
            request3pid_email_token_step(*old(self), secret, has_engine, *final(self), fx@),
    {
        if has_engine {
                self.is_requesting_3pid_token = true;
                self.error = None;
                self.adding_3pid_client_secret = Some(secret.clone());
                vec![Effect::RequestEmailToken { client_secret: secret, email: self.new_3pid_email.clone() }]
            } else {
                Vec::new()
            }
    }

    #[verifier::spinoff_prover]
    fn on_request3pid_msisdn_token(&mut self, secret: String, has_engine: bool) -> (fx: Vec<Effect>)
        ensures
            request3pid_msisdn_token_step(*old(self), secret, has_engine, *final(self), fx@),
    {
        if has_engine {
                self.is_requesting_3pid_token = true;
                self.error = None;
                self.adding_3pid_client_secret = Some(secret.clone());
                vec![
                    Effect::RequestMsisdnToken {
                        client_secret: secret,
                        country: self.new_3pid_country_code.clone(),
                        msisdn: self.new_3pid_msisdn.clone(),
                    },
                ]
            } else {
                Vec::new()
            }
    }

    #[verifier::spinoff_prover]
    fn on_threepid_token_requested(&mut self, res: Result<String, String>, has_engine: bool) -> (fx: Vec<Effect>)
        ensures
            threepid_token_requested_step(*old(self), res, has_engine, *final(self), fx@),
    {
        match res {
            Ok(sid) => {
                self.is_requesting_3pid_token = false;
                self.adding_3pid_sid = Some(sid);
                self.success_message = Some(
                    "Verification code sent. Please confirm the link/code and then provide your password to add it here.".to_owned(),
                );
                return Vec::new();
            },
            Err(e) => {
                self.is_requesting_3pid_token = false;
                self.adding_3pid_client_secret = None;
                self.fail("Failed to request verification token: ", e.as_str());
                return Vec::new();
            },
        }
    }

    #[verifier::spinoff_prover]
    fn on_add3pid(&mut self, has_engine: bool) -> (fx: Vec<Effect>)
        ensures
            add3pid_step(*old(self), has_engine, *final(self), fx@),
    {
        if has_engine {
                match (&self.adding_3pid_sid, &self.adding_3pid_client_secret) {
                    (Some(sid), Some(secret)) => vec![
                        Effect::Add3PID {
                            sid: sid.clone(),
                            client_secret: secret.clone(),
                            password: self.add_3pid_password.clone(),
                        },
                    ],
                    _ => Vec::new(),
                }
            } else {
                Vec::new()
            }
    }

    #[verifier::spinoff_prover]
    fn on_threepid_added(&mut self, res: Result<(), String>, has_engine: bool) -> (fx: Vec<Effect>)
        ensures
            threepid_added_step(*old(self), res, has_engine, *final(self), fx@),
    {
        match res {
            Ok(_) => {
                self.new_3pid_email = String::new();
                self.new_3pid_msisdn = String::new();
                self.add_3pid_password = String::new();
                self.adding_3pid_sid = None;
                self.adding_3pid_client_secret = None;
                if has_engine {
                    self.is_loading_3pids = true;
                    return vec![Effect::Load3PIDs];
                } else {
                    return Vec::new();
                }
            },
            Err(e) => {
                self.fail("Failed to add 3PID: ", e.as_str());
                return Vec::new();
            },
        }
    }

    #[verifier::spinoff_prover]
    fn on_dismiss_success_message(&mut self, has_engine: bool) -> (fx: Vec<Effect>)
        ensures
            dismiss_success_message_step(*old(self), has_engine, *final(self), fx@),
    {
        self.success_message = None;
        Vec::new()
    }

    #[verifier::spinoff_prover]
    fn on_delete3pid(&mut self, address: String, medium: Medium, has_engine: bool) -> (fx: Vec<Effect>)
        ensures
            delete3pid_step(*old(self), address, medium, has_engine, *final(self), fx@),
    {
        if has_engine {
                vec![Effect::Delete3PID { address, medium }]
            } else {
                Vec::new()
            }
    }

    #[verifier::spinoff_prover]
    fn on_threepid_deleted(&mut self, address: String, res: Result<(), String>, has_engine: bool) -> (fx: Vec<Effect>)
        ensures
            threepid_deleted_step(*old(self), address, res, has_engine, *final(self), fx@),
    {
        match res {
            Ok(_) => {
                self.threepids = without_threepid(&self.threepids, address.as_str());
                return Vec::new();
            },
            Err(e) => {
                self.fail("Failed to delete 3PID: ", e.as_str());
                return Vec::new();
            },
        }
    }

    #[verifier::spinoff_prover]
    fn on_load_keywords(&mut self, has_engine: bool) -> (fx: Vec<Effect>)
        ensures
            load_keywords_step(*old(self), has_engine, *final(self), fx@),
    {
        self.load_keywords(has_engine)
    }

    #[verifier::spinoff_prover]
    fn on_keywords_loaded(&mut self, k: Vec<String>, has_engine: bool) -> (fx: Vec<Effect>)
        ensures
            keywords_loaded_step(*old(self), k, has_engine, *final(self), fx@),
    {
        self.is_loading_keywords = false;
        self.keywords = k;
        Vec::new()
    }

    #[verifier::spinoff_prover]
    fn on_new_keyword_changed(&mut self, k: String, has_engine: bool) -> (fx: Vec<Effect>)
        ensures
            new_keyword_changed_step(*old(self), k, has_engine, *final(self), fx@),
    {
        self.new_keyword = k;
        Vec::new()
    }

    #[verifier::spinoff_prover]
    fn on_add_keyword(&mut self, has_engine: bool) -> (fx: Vec<Effect>)
        ensures
            add_keyword_step(*old(self), has_engine, *final(self), fx@),
    {
        if has_engine && !self.new_keyword.as_str().is_empty() {
                self.is_loading_keywords = true;
                vec![Effect::AddKeyword(self.new_keyword.clone())]
            } else {
                Vec::new()
            }
    }

    #[verifier::spinoff_prover]
    fn on_keyword_added(&mut self, res: Result<(), String>, has_engine: bool) -> (fx: Vec<Effect>)
        ensures
            keyword_added_step(*old(self), res, has_engine, *final(self), fx@),
    {
        match res {
            Ok(_) => {
                self.new_keyword = String::new();
                if has_engine {
                    self.is_loading_keywords = true;
                    return vec![Effect::LoadKeywords];
                } else {
                    return Vec::new();
                }
            },
            Err(e) => {
                self.fail("Failed to add keyword: ", e.as_str());
                return Vec::new();
            },
        }
    }

    #[verifier::spinoff_prover]
    fn on_remove_keyword(&mut self, k: String, has_engine: bool) -> (fx: Vec<Effect>)
        ensures
            remove_keyword_step(*old(self), k, has_engine, *final(self), fx@),
    {
        if has_engine {
                self.is_loading_keywords = true;
                vec![Effect::RemoveKeyword(k)]
            } else {
                Vec::new()
            }
    }

    #[verifier::spinoff_prover]
    fn on_keyword_removed(&mut self, res: Result<(), String>, has_engine: bool) -> (fx: Vec<Effect>)
        ensures
            keyword_removed_step(*old(self), res, has_engine, *final(self), fx@),
    {
        match res {
            Ok(_) => {
                if has_engine {
                    self.is_loading_keywords = true;
                    return vec![Effect::LoadKeywords];
                } else {
                    return Vec::new();
                }
            },
            Err(e) => {
                self.is_loading_keywords = false;
                self.fail("Failed to remove keyword: ", e.as_str());
                return Vec::new();
            },
        }
    }

    /// Handles one message; `has_engine` tells whether there is a Matrix
    /// engine. Returns what the application is to do (see `transition`).
    #[verifier::spinoff_prover]
    pub fn update(&mut self, message: Message, has_engine: bool) -> (fx: Vec<Effect>)
        ensures
            transition(*old(self), message, has_engine, *final(self), fx@),
    {
        match message {
            Message::LoadProfile => self.on_load_profile(has_engine),
            Message::IgnoreUserById(u) => self.on_ignore_user_by_id(u, has_engine),
            Message::UnignoreUserById(u) => self.on_unignore_user_by_id(u, has_engine),
            Message::UnignoreUser(u) => self.on_unignore_user_by_id(u, has_engine),
            Message::LoadIgnoredUsers => self.on_load_ignored_users(has_engine),
            Message::IgnoredUsersLoaded(res) => self.on_ignored_users_loaded(res, has_engine),
            Message::NewIgnoreUserIdChanged(u) => self.on_new_ignore_user_id_changed(u, has_engine),
            Message::IgnoreUser => self.on_ignore_user(has_engine),
            Message::UserIgnored(res) => self.on_user_ignored(res, has_engine),
            Message::UserUnignored(who, res) => self.on_user_unignored(who, res, has_engine),
            Message::ProfileLoaded(res) => self.on_profile_loaded(res, has_engine),
            Message::AvatarUrlLoaded(res) => self.on_avatar_url_loaded(res, has_engine),
            Message::AvatarMediaFetched(res) => self.on_avatar_media_fetched(res, has_engine),
            Message::SelectAvatar => self.on_select_avatar(has_engine),
            Message::AvatarFileSelected(p) => self.on_avatar_file_selected(p, has_engine),
            Message::AvatarUploaded(res) => self.on_avatar_uploaded(res, has_engine),
            Message::DisplayNameChanged(n) => self.on_display_name_changed(n, has_engine),
            Message::SaveProfile => self.on_save_profile(has_engine),
            Message::ProfileSaved(res) => self.on_profile_saved(res, has_engine),
            Message::GlobalNotificationModeLoaded(dm, mode) => self.on_global_notification_mode_loaded(dm, mode, has_engine),
            Message::GlobalNotificationModeChanged(dm, mode) => self.on_global_notification_mode_changed(dm, mode, has_engine),
            Message::GlobalNotificationModeSet(res) => self.on_global_notification_mode_set(res, has_engine),
            Message::DismissError => self.on_dismiss_error(has_engine),
            Message::CurrentPasswordChanged(p) => self.on_current_password_changed(p, has_engine),
            Message::NewPasswordChanged(p) => self.on_new_password_changed(p, has_engine),
            Message::ConfirmNewPasswordChanged(p) => self.on_confirm_new_password_changed(p, has_engine),
            Message::ChangePassword => self.on_change_password(has_engine),
            Message::PasswordChanged(res) => self.on_password_changed(res, has_engine),
            Message::DismissPasswordSuccess => self.on_dismiss_password_success(has_engine),
            Message::LoadDevices => self.on_load_devices(has_engine),
            Message::DevicesLoaded(res) => self.on_devices_loaded(res, has_engine),
            Message::VerifyDevice(id) => self.on_verify_device(id, has_engine),
            Message::VerificationRequested(res) => self.on_verification_requested(res, has_engine),
            Message::VerificationRequestStateChanged(st) => self.on_verification_request_state_changed(st, has_engine),
            Message::SasStarted(res) => self.on_sas_started(res, has_engine),
            Message::SasStateChanged(st) => self.on_sas_state_changed(st, has_engine),
            Message::ConfirmEmojis => self.on_confirm_emojis(has_engine),
            Message::EmojisConfirmed(res) => self.on_emojis_confirmed(res, has_engine),
            Message::CancelVerification => self.on_cancel_verification(has_engine),
            Message::DeviceDeletePasswordChanged(p) => self.on_device_delete_password_changed(p, has_engine),
            Message::StartRenameDevice(id) => self.on_start_rename_device(id, has_engine),
            Message::CancelRenameDevice(id) => self.on_cancel_rename_device(id, has_engine),
            Message::EditDeviceNameChanged(id, name) => self.on_edit_device_name_changed(id, name, has_engine),
            Message::SaveDeviceName(id) => self.on_save_device_name(id, has_engine),
            Message::DeviceRenamed(id, res) => self.on_device_renamed(id, res, has_engine),
            Message::DeleteDevice(id) => self.on_delete_device(id, has_engine),
            Message::DeviceDeleted(id, res) => self.on_device_deleted(id, res, has_engine),
            Message::DeactivatePasswordChanged(p) => self.on_deactivate_password_changed(p, has_engine),
            Message::DeactivateAccount => self.on_deactivate_account(has_engine),
            Message::AccountDeactivated(res) => self.on_account_deactivated(res, has_engine),
            Message::LoadCrossSigningStatus => self.on_load_cross_signing_status(has_engine),
            Message::CrossSigningStatusLoaded(res) => self.on_cross_signing_status_loaded(res, has_engine),
            Message::BootstrapCrossSigning => self.on_bootstrap_cross_signing(has_engine),
            Message::CrossSigningBootstrapped(res) => self.on_cross_signing_bootstrapped(res, has_engine),
            Message::ToggleMediaPreviewsDisplayPolicy(b) => self.on_toggle_media_previews_display_policy(b, has_engine),
            Message::ToggleInviteAvatarsDisplayPolicy(b) => self.on_toggle_invite_avatars_display_policy(b, has_engine),
            Message::Load3PIDs => self.on_load3pids(has_engine),
            Message::ThreepidsLoaded(res) => self.on_threepids_loaded(res, has_engine),
            Message::New3PIDEmailChanged(v) => self.on_new3pid_email_changed(v, has_engine),
            Message::New3PIDMsisdnChanged(v) => self.on_new3pid_msisdn_changed(v, has_engine),
            Message::New3PIDCountryCodeChanged(v) => self.on_new3pid_country_code_changed(v, has_engine),
            Message::Add3PIDPasswordChanged(v) => self.on_add3pid_password_changed(v, has_engine),
            Message::Request3PIDEmailToken(secret) => self.on_request3pid_email_token(secret, has_engine),
            Message::Request3PIDMsisdnToken(secret) => self.on_request3pid_msisdn_token(secret, has_engine),
            Message::ThreepidTokenRequested(res) => self.on_threepid_token_requested(res, has_engine),
            Message::Add3PID => self.on_add3pid(has_engine),
            Message::ThreepidAdded(res) => self.on_threepid_added(res, has_engine),
            Message::DismissSuccessMessage => self.on_dismiss_success_message(has_engine),
            Message::Delete3PID(address, medium) => self.on_delete3pid(address, medium, has_engine),
            Message::ThreepidDeleted(address, res) => self.on_threepid_deleted(address, res, has_engine),
            Message::LoadKeywords => self.on_load_keywords(has_engine),
            Message::KeywordsLoaded(k) => self.on_keywords_loaded(k, has_engine),
            Message::NewKeywordChanged(k) => self.on_new_keyword_changed(k, has_engine),
            Message::AddKeyword => self.on_add_keyword(has_engine),
            Message::KeywordAdded(res) => self.on_keyword_added(res, has_engine),
            Message::RemoveKeyword(k) => self.on_remove_keyword(k, has_engine),
            Message::KeywordRemoved(res) => self.on_keyword_removed(res, has_engine),
        }
    }
}


/// One device as the devices section lists it.
pub struct DeviceRow {
    pub device_id: String,
    /// The device's name, or "Unknown Device".
    pub name: String,
    pub is_verified: bool,
    /// The "Verify" button shows: an unverified device other than this one.
    pub can_verify: bool,
    /// The "Delete" button responds: the device is not being deleted.
    pub can_delete: bool,
    /// The name is being edited (a text field with "Save" and "Cancel").
    pub is_renaming: bool,
    pub is_current: bool,
}

/// The row listed for a device.
pub open spec fn device_row_matches(r: DeviceRow, d: DeviceInfo) -> bool {
    &&& r.device_id@ == d.device_id@
    &&& r.name@ == match d.display_name {
        Some(n) => n@,
        None => "Unknown Device"@,
    }
    &&& r.is_verified == d.is_verified
    &&& r.can_verify == (!d.is_verified && !d.is_current)
    &&& r.can_delete == !d.is_deleting
    &&& r.is_renaming == d.is_renaming
    &&& r.is_current == d.is_current
}

impl State {
    /// The rows of the devices section: none while the devices load; else
    /// one per device, in order.
    #[verifier::spinoff_prover]
    pub fn device_rows(&self) -> (rows: Vec<DeviceRow>)
        ensures
            self.is_loading_devices ==> rows@.len() == 0,
            !self.is_loading_devices ==> rows@.len() == self.devices@.len() && forall|i: int|
                0 <= i < rows@.len() ==> device_row_matches(#[trigger] rows@[i], self.devices@[i]),
    {
        let mut rows: Vec<DeviceRow> = Vec::new();
        if self.is_loading_devices {
            return rows;
        }
        let mut i: usize = 0;
        while i < self.devices.len()
            invariant
                i <= self.devices@.len(),
                rows@.len() == i,
                forall|k: int| 0 <= k < i ==> device_row_matches(#[trigger] rows@[k], self.devices@[k]),
            decreases self.devices@.len() - i,
        {
            let d = &self.devices[i];
            let name = match &d.display_name {
                Some(n) => n.clone(),
                None => "Unknown Device".to_owned(),
            };
            rows.push(
                DeviceRow {
                    device_id: d.device_id.clone(),
                    name,
                    is_verified: d.is_verified,
                    can_verify: !d.is_verified && !d.is_current,
                    can_delete: !d.is_deleting,
                    is_renaming: d.is_renaming,
                    is_current: d.is_current,
                },
            );
            i = i + 1;
        }
        rows
    }
}

} // verus!
