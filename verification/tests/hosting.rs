use node_librespot::connect::DeviceType;
use node_librespot::credentials::{AuthType, LoginCredentials};
use node_librespot::hosting::{
    host_started, start_connect_device, start_connect_device_inner,
    start_connect_device_with_credentials, start_connect_device_with_token, TokenHost,
};
use node_librespot::login::LoginOutcome;
use node_librespot::session::{FileLookup, Step};

const STORED: &str = r#"{"username":"ada","auth_type":1,"auth_data":"AAEC/w=="}"#;

fn text(s: &str) -> String {
    s.to_string()
}

#[test]
fn legacy_entry_point_fails() {
    assert_eq!(
        start_connect_device(text(STORED), text("n"), text("d")).unwrap_err().reason,
        "startConnectDevice is deprecated; use startConnectDeviceWithToken(accessToken, clientId, ...)"
    );
}

#[test]
fn host_with_stored_credentials() {
    let request =
        start_connect_device_with_credentials(text(STORED), text("Lox"), text("zone")).unwrap();
    let attempt =
        start_connect_device_inner(request, text("connect-4"), FileLookup::Missing, None, true);
    assert_eq!(attempt.ctx.device_id.as_deref(), Some("zone"));
    assert_eq!(attempt.ctx.session_id.as_deref(), Some("connect-4"));
    assert_eq!(attempt.ctx.track_id, None);
    assert_eq!(attempt.ctx.uri, None);
    assert_eq!(attempt.logs.len(), 1);
    assert_eq!(attempt.logs[0].level, "info");
    assert_eq!(attempt.logs[0].message, "connect host start");
    assert_eq!(attempt.logs[0].scope.as_deref(), Some("connect_host"));
    assert_eq!(attempt.logs[0].device_id.as_deref(), Some("zone"));
    assert_eq!(attempt.logs[0].session_id.as_deref(), Some("connect-4"));
    let plan = attempt.plan.unwrap();
    assert_eq!(plan.credentials.username.as_deref(), Some("ada"));
    assert_eq!(plan.device_id, "zone");
    assert_eq!(plan.client_id, None);
    assert_eq!(plan.settings.name, "Lox");
    assert_eq!(plan.settings.initial_volume, 65535);
    assert_eq!(plan.settings.volume_steps, 64);
    assert_eq!(plan.settings.device_type, DeviceType::Speaker);
    assert!(!plan.settings.is_group);
    assert!(!plan.settings.disable_volume);
    assert!(!plan.settings.emit_set_queue_events);
}

#[test]
fn host_keeps_a_blank_device_id() {
    let request = start_connect_device_with_credentials(text("path"), text(""), text(" ")).unwrap();
    let attempt = start_connect_device_inner(
        request,
        text("connect-1"),
        FileLookup::Contents(text(STORED)),
        Some(text("env")),
        false,
    );
    assert!(attempt.logs.is_empty());
    let plan = attempt.plan.unwrap();
    assert_eq!(plan.device_id, " ");
    assert_eq!(plan.client_id.as_deref(), Some("env"));
}

#[test]
fn host_refusals() {
    assert_eq!(
        start_connect_device_with_credentials(text(" "), text("n"), text("d")).unwrap_err().reason,
        "credentials payload is required"
    );
    let ask = |file: FileLookup| {
        let request = start_connect_device_with_credentials(text("p"), text("n"), text("d")).unwrap();
        let attempt = start_connect_device_inner(request, text("connect-1"), file, None, true);
        assert_eq!(attempt.logs.len(), 1);
        attempt.plan.unwrap_err().reason
    };
    assert_eq!(ask(FileLookup::Unreadable(text("gone"))), "gone");
    assert_eq!(
        ask(FileLookup::Contents(text("[]x"))),
        "invalid credentials json: invalid length 0, expected struct Credentials with 3 elements at line 1 column 2"
    );
    assert!(ask(FileLookup::Missing).starts_with("invalid credentials json: "));
}

#[test]
fn started_host_has_a_handle() {
    let handle = host_started(Ok(())).unwrap();
    assert_eq!(handle.sample_rate(), 44100);
    assert_eq!(handle.channels(), 2);
    assert!(handle.stop_pending);
    assert_eq!(
        host_started(Err((Step::OpenMixer, text("no device")))).unwrap_err().reason,
        "mixer init failed: no device"
    );
    assert_eq!(
        host_started(Err((Step::StartHost, text("refused")))).unwrap_err().reason,
        "spirc start failed: refused"
    );
}

fn token_host(client: Option<&str>, env: Option<&str>) -> TokenHost {
    start_connect_device_with_token(
        text(" tok"),
        client.map(text),
        text("Lox"),
        text("zone"),
        env.map(text),
    )
    .unwrap()
}

#[test]
fn host_with_token() {
    let host = token_host(None, None);
    assert_eq!(host.export_client_id, None);
    assert_eq!(host.login.client_id, None);
    assert_eq!(host.login.credentials.auth_data, b" tok");
    assert_eq!(host.login.credentials.auth_type, AuthType::SpotifyToken);
    assert_eq!(host.login.device_id.as_deref(), Some("zone"));
    assert!(host.login.store_credentials);
    assert_eq!(
        start_connect_device_with_token(text("\t"), None, text("n"), text("d"), None)
            .unwrap_err()
            .reason,
        "access token is required"
    );
}

#[test]
fn client_id_of_a_token_host() {
    let host = token_host(Some("own"), Some("env"));
    assert_eq!(host.export_client_id.as_deref(), Some("own"));
    assert_eq!(host.login.client_id.as_deref(), Some("own"));
    let host = token_host(Some(" "), Some("env"));
    assert_eq!(host.export_client_id, None);
    assert_eq!(host.login.client_id.as_deref(), Some("env"));
    let host = token_host(None, Some(" "));
    assert_eq!(host.login.client_id, None);
}

#[test]
fn token_is_exchanged() {
    let credentials = LoginCredentials {
        username: Some(text("ada")),
        auth_type: AuthType::StoredSpotifyCredentials,
        auth_data: vec![0, 1, 2, 255],
    };
    let request =
        token_host(None, None).exchanged(LoginOutcome::Connected(Some(credentials))).unwrap();
    assert_eq!(request.credentials_path, STORED);
    assert_eq!(request.name, "Lox");
    assert_eq!(request.device_id, "zone");
    let attempt =
        start_connect_device_inner(request, text("connect-1"), FileLookup::Missing, None, false);
    let plan = attempt.plan.unwrap();
    assert_eq!(plan.credentials.username.as_deref(), Some("ada"));
    assert_eq!(plan.credentials.auth_data, vec![0, 1, 2, 255]);
}

#[test]
fn exchange_failures_are_printed_errors() {
    let reason = |outcome| token_host(None, None).exchanged(outcome).unwrap_err().reason;
    assert_eq!(
        reason(LoginOutcome::Connected(None)),
        "GenericFailure, no reusable credentials after oauth login"
    );
    assert_eq!(
        reason(LoginOutcome::Failed(Step::Connect, text("bad token"))),
        "GenericFailure, session connect failed: bad token"
    );
    assert_eq!(reason(LoginOutcome::Failed(Step::Local, text(""))), "GenericFailure");
    assert_eq!(
        token_host(None, None).exchanged_with_json(Err(text("x"))).unwrap_err().reason,
        "GenericFailure, x"
    );
    assert_eq!(
        token_host(None, None).exchanged_with_json(Ok(text("{}"))).unwrap().credentials_path,
        "{}"
    );
}

#[test]
fn printed_errors_read_as_the_bindings_print_them() {
    for reason in ["", "x"] {
        let ours = node_librespot::Error::from_reason(reason).to_text();
        let theirs = napi::Error::from_reason(reason).to_string();
        assert_eq!(ours, theirs);
    }
}
