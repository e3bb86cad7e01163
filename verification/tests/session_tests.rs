use constellations::matrix::{SyncError, SyncStatus};
use constellations::session::{AuthFlow, MainButton, SessionState};
use constellations::QrLoginStep;

fn create_dummy_session() -> SessionState {
    SessionState {
        user_id: None,
        sync_status: SyncStatus::Disconnected,
        error: None,
        login_homeserver: String::new(),
        login_username: String::new(),
        login_password: String::new(),
        auth_flow: AuthFlow::Idle,
        is_registering_mode: false,
        is_registering: false,
        is_initializing: false,
        is_loading_more: false,
    }
}

#[test]
fn test_handle_media_fetched_error() {
    let mut app = create_dummy_session();
    assert_eq!(app.error, None);

    let data = app.handle_media_fetched(Err("network timeout".to_string()));

    assert_eq!(app.error, Some("Failed to fetch media: network timeout".to_string()));
    assert!(data.is_none());
}

#[test]
fn test_handle_engine_ready_err() {
    let mut app = create_dummy_session();
    app.is_initializing = true;
    assert_eq!(app.error, None);

    let err_res = Err(SyncError::Generic("Initial sync failed".to_string()));
    let restore = app.handle_engine_ready(err_res);

    assert_eq!(
        app.error,
        Some("Failed to initialize Matrix engine: Error: Initial sync failed".to_string())
    );
    assert_eq!(app.is_initializing, false);
    assert!(!restore);
}

#[test]
fn test_handle_load_more_already_loading() {
    let mut app = create_dummy_session();
    app.is_loading_more = true;

    let load = app.handle_load_more(false, true);
    assert!(!load);
    assert!(app.is_loading_more);

    app.is_loading_more = false;
    let load = app.handle_load_more(false, true);
    assert!(!load);
    assert!(!app.is_loading_more);
}

#[test]
fn test_update_room_joined_error() {
    let mut app = create_dummy_session();
    let joined = app.handle_room_joined(Err("some connection error".to_string()));

    assert_eq!(app.error, Some("Failed to join room: some connection error".to_string()));
    assert!(joined.is_none());
}

#[test]
fn room_joined_hands_back_the_room() {
    let mut app = create_dummy_session();
    let joined = app.handle_room_joined(Ok("!r:x".to_string()));
    assert_eq!(joined, Some("!r:x".to_string()));
    assert_eq!(app.error, None);
}

#[test]
fn media_fetched_hands_back_the_data() {
    let mut app = create_dummy_session();
    let data = app.handle_media_fetched(Ok(vec![1, 2, 3]));
    assert_eq!(data, Some(vec![1, 2, 3]));
    assert_eq!(app.error, None);
}

#[test]
fn load_more_starts_once() {
    let mut app = create_dummy_session();
    assert!(app.handle_load_more(true, true));
    assert!(app.is_loading_more);
    assert!(!app.handle_load_more(true, true));
    let mut other = create_dummy_session();
    assert!(!other.handle_load_more(true, false));
    assert!(!other.is_loading_more);
}

#[test]
fn engine_ready_ok_restores_the_session() {
    let mut app = create_dummy_session();
    app.is_initializing = true;
    assert!(app.handle_engine_ready(Ok(())));
    assert!(app.is_initializing);
    assert_eq!(app.error, None);
}

#[test]
fn toggle_login_mode_clears_the_error() {
    let mut app = create_dummy_session();
    app.error = Some("bad".to_string());
    app.handle_toggle_login_mode();
    assert!(app.is_registering_mode);
    assert_eq!(app.error, None);
    app.handle_toggle_login_mode();
    assert!(!app.is_registering_mode);
}

#[test]
fn login_hands_over_the_credentials() {
    let mut app = create_dummy_session();
    app.login_homeserver = "https://matrix.org".to_string();
    app.login_username = "alice".to_string();
    app.login_password = "secret".to_string();
    assert!(app.handle_submit_login(false).is_none());
    assert_eq!(app.login_password, "secret");

    let creds = app.handle_submit_login(true).expect("credentials");
    assert_eq!(creds.homeserver, "https://matrix.org");
    assert_eq!(creds.username, "alice");
    assert_eq!(creds.password, "secret");
    assert_eq!(app.login_password, "");
    assert_eq!(app.auth_flow, AuthFlow::Password);
}

#[test]
fn login_form_shows_the_qr_screen() {
    let mut app = create_dummy_session();
    app.auth_flow = AuthFlow::Qr { step: QrLoginStep::ShowingQr };
    let form = app.login_form();
    assert!(form.qr_screen);
    let app2 = create_dummy_session();
    let form2 = app2.login_form();
    assert!(!form2.qr_screen);
    assert!(matches!(form2.main_button, MainButton::Login { enabled: false }));
    assert!(form2.missing_fields);
}

#[test]
fn media_batch_caches_what_came_and_shows_the_last_failure() {
    let mut app = create_dummy_session();
    let fetched = app.handle_media_fetched_batch(vec![
        ("mxc://a".to_string(), Ok(vec![1])),
        ("mxc://b".to_string(), Err("timeout".to_string())),
        ("mxc://c".to_string(), Ok(vec![2, 3])),
        ("mxc://d".to_string(), Err("not found".to_string())),
    ]);
    assert_eq!(
        fetched,
        vec![("mxc://a".to_string(), vec![1]), ("mxc://c".to_string(), vec![2, 3])]
    );
    assert_eq!(app.error, Some("Failed to fetch media: not found".to_string()));

    let mut ok = create_dummy_session();
    let fetched = ok.handle_media_fetched_batch(vec![("mxc://e".to_string(), Ok(vec![9]))]);
    assert_eq!(fetched.len(), 1);
    assert_eq!(ok.error, None);
}
