use node_librespot::connect::DeviceType;
use node_librespot::credentials::{AuthType, LoginCredentials};
use node_librespot::login::{
    connect_dir_name, credentials_result, finish_login, finish_zeroconf_login,
    login_dir_name, login_with_access_token, result_with_json, start_zeroconf_login, LoginOutcome,
    ZeroconfOutcome,
};
use node_librespot::session::{
    accept_parsed, create_session, create_session_with_credentials, load_credentials,
    session_with_credentials, step_failed, CreateSessionOpts, FileLookup, Step,
};

const STORED: &str = r#"{"username":"ada","auth_type":1,"auth_data":"AAEC/w=="}"#;

fn opts(token: Option<&str>, client: Option<&str>, device: Option<&str>) -> CreateSessionOpts {
    CreateSessionOpts {
        access_token: token.map(|t| t.to_string()),
        client_id: client.map(|t| t.to_string()),
        device_name: device.map(|t| t.to_string()),
    }
}

fn stored(username: Option<&str>) -> LoginCredentials {
    LoginCredentials {
        username: username.map(|n| n.to_string()),
        auth_type: AuthType::StoredSpotifyCredentials,
        auth_data: vec![0, 1, 2, 255],
    }
}

#[test]
fn token_session() {
    let plan = create_session(opts(Some(" tök\n"), Some("client"), Some("zone")), None).unwrap();
    assert_eq!(plan.credentials.username, None);
    assert_eq!(plan.credentials.auth_type, AuthType::SpotifyToken);
    assert_eq!(plan.credentials.auth_data, "tök".as_bytes());
    assert_eq!(plan.device_id, "zone");
    assert_eq!(plan.client_id.as_deref(), Some("client"));
    assert!(!plan.store_credentials);
}

#[test]
fn token_session_defaults() {
    let plan = create_session(opts(Some("t"), None, None), None).unwrap();
    assert_eq!(plan.device_id, "librespot");
    assert_eq!(plan.client_id, None);
    let plan = create_session(opts(Some("t"), Some("  "), Some(" \t")), None).unwrap();
    assert_eq!(plan.device_id, "librespot");
    assert_eq!(plan.client_id, None);
    let plan = create_session(opts(Some("t"), Some(" c "), Some(" z ")), None).unwrap();
    assert_eq!(plan.device_id, " z ");
    assert_eq!(plan.client_id.as_deref(), Some(" c "));
}

#[test]
fn token_session_client_from_environment() {
    let env = || Some("env".to_string());
    let plan = create_session(opts(Some("t"), None, None), env()).unwrap();
    assert_eq!(plan.client_id.as_deref(), Some("env"));
    let plan = create_session(opts(Some("t"), Some(" "), None), env()).unwrap();
    assert_eq!(plan.client_id.as_deref(), Some("env"));
    let plan = create_session(opts(Some("t"), Some("own"), None), env()).unwrap();
    assert_eq!(plan.client_id.as_deref(), Some("own"));
    let plan = create_session(opts(Some("t"), None, None), Some(" ".to_string())).unwrap();
    assert_eq!(plan.client_id, None);
}

#[test]
fn token_session_without_token() {
    for token in [None, Some(""), Some(" \n ")] {
        assert_eq!(
            create_session(opts(token, None, None), None).unwrap_err().reason,
            "access token is required; obtain a user token via PKCE/Web API"
        );
    }
}

#[test]
fn stored_session_inline() {
    let plan = create_session_with_credentials(
        STORED.to_string(),
        Some("zone".to_string()),
        FileLookup::Missing,
        Some("env".to_string()),
    )
    .unwrap();
    assert_eq!(plan.credentials.username.as_deref(), Some("ada"));
    assert_eq!(plan.credentials.auth_type, AuthType::StoredSpotifyCredentials);
    assert_eq!(plan.credentials.auth_data, vec![0, 1, 2, 255]);
    assert_eq!(plan.device_id, "zone");
    assert_eq!(plan.client_id.as_deref(), Some("env"));
    assert!(!plan.store_credentials);
}

#[test]
fn stored_session_from_file() {
    let plan = create_session_with_credentials(
        "credentials.json".to_string(),
        None,
        FileLookup::Contents(STORED.to_string()),
        None,
    )
    .unwrap();
    assert_eq!(plan.credentials.username.as_deref(), Some("ada"));
    assert_eq!(plan.device_id, "librespot");
    assert_eq!(plan.client_id, None);
}

#[test]
fn stored_session_refusals() {
    let ask = |payload: &str, file: FileLookup| {
        create_session_with_credentials(payload.to_string(), None, file, None).unwrap_err().reason
    };
    assert_eq!(ask("", FileLookup::Missing), "credentials payload is required");
    assert_eq!(ask(" \n", FileLookup::Contents(STORED.to_string())), "credentials payload is required");
    assert_eq!(
        ask("p", FileLookup::Unreadable("Permission denied (os error 13)".to_string())),
        "Permission denied (os error 13)"
    );
    assert_eq!(
        ask("nonsense", FileLookup::Missing),
        "invalid credentials json: expected ident at line 1 column 2"
    );
    assert_eq!(
        ask("p", FileLookup::Contents(String::new())),
        "invalid credentials json: EOF while parsing a value at line 1 column 0"
    );
    assert!(ask(r#"{"username":"ada","auth_type":77,"auth_data":""}"#, FileLookup::Missing)
        .starts_with("invalid credentials json: Invalid enum value"));
    assert!(ask(r#"{"username":"ada"}"#, FileLookup::Missing)
        .starts_with("invalid credentials json: missing field `auth_type`"));
}

#[test]
fn parsed_credentials_are_accepted_or_explained() {
    assert_eq!(accept_parsed(Ok(stored(None))).unwrap().auth_data, vec![0, 1, 2, 255]);
    assert_eq!(
        accept_parsed(Err("why".to_string())).unwrap_err().reason,
        "invalid credentials json: why"
    );
    assert!(load_credentials("x", FileLookup::Contents(STORED.to_string())).is_ok());
    let plan = session_with_credentials(Ok(stored(None)), None, None).unwrap();
    assert_eq!(plan.device_id, "librespot");
}

#[test]
fn all_kinds_of_credentials_come_back() {
    for auth_type in [
        AuthType::UserPass,
        AuthType::StoredSpotifyCredentials,
        AuthType::StoredFacebookCredentials,
        AuthType::SpotifyToken,
        AuthType::FacebookToken,
    ] {
        for username in [None, Some("ad\"a\n\u{1f600}")] {
            let given = LoginCredentials {
                username: username.map(|n| n.to_string()),
                auth_type,
                auth_data: (0..=255).collect(),
            };
            let result = credentials_result(&given).unwrap();
            assert_eq!(result.username, username.unwrap_or(""));
            for file in [FileLookup::Missing, FileLookup::Contents(result.credentials_json.clone())] {
                let plan =
                    create_session_with_credentials(result.credentials_json.clone(), None, file, None)
                        .unwrap();
                assert_eq!(plan.credentials.username, given.username);
                assert_eq!(plan.credentials.auth_type, given.auth_type);
                assert_eq!(plan.credentials.auth_data, given.auth_data);
            }
        }
    }
}

#[test]
fn connecting_a_session() {
    let plan = create_session(opts(Some("t"), None, Some("zone")), None).unwrap();
    let session = plan.finish(Ok(())).unwrap();
    assert_eq!(session.device_id, "zone");
    assert!(session.close().is_ok());
    let plan = create_session(opts(Some("t"), None, None), None).unwrap();
    assert_eq!(
        plan.finish(Err("timed out".to_string())).unwrap_err().reason,
        "session connect failed: timed out"
    );
}

#[test]
fn failed_steps() {
    let texts = [
        (Step::Connect, "session connect failed: x"),
        (Step::OpenMixer, "mixer init failed: x"),
        (Step::StartHost, "spirc start failed: x"),
        (Step::LaunchZeroconf, "zeroconf launch failed: x"),
        (Step::LoadItem, "failed to load audio item: x"),
        (Step::OpenFile, "failed to open audio file: x"),
        (Step::Local, "x"),
    ];
    for (step, text) in texts {
        assert_eq!(step_failed(step, "x").reason, text);
    }
}

#[test]
fn token_login() {
    let plan = login_with_access_token(" tok ".to_string(), Some("".to_string())).unwrap();
    assert_eq!(plan.credentials.auth_data, b" tok ");
    assert_eq!(plan.credentials.auth_type, AuthType::SpotifyToken);
    assert_eq!(plan.device_id.as_deref(), Some(""));
    assert_eq!(plan.client_id, None);
    assert!(plan.store_credentials);
    assert_eq!(login_with_access_token("t".to_string(), None).unwrap().device_id, None);
    assert_eq!(
        login_with_access_token(" ".to_string(), None).unwrap_err().reason,
        "access token is required"
    );
}

#[test]
fn login_directories() {
    assert_eq!(login_dir_name(1700000000123, 42), "lox-librespot-oauth-1700000000123-42");
    assert_eq!(connect_dir_name(7, 0), "lox-librespot-oauth-connect-7-0");
    assert_ne!(login_dir_name(1, 23), login_dir_name(12, 3));
}

#[test]
fn login_outcomes() {
    let result = finish_login(LoginOutcome::Connected(Some(stored(Some("ada"))))).unwrap();
    assert_eq!(result.username, "ada");
    assert_eq!(
        result.credentials_json,
        "{\n  \"username\": \"ada\",\n  \"auth_type\": 1,\n  \"auth_data\": \"AAEC/w==\"\n}"
    );
    assert_eq!(
        finish_login(LoginOutcome::Connected(None)).unwrap_err().reason,
        "no reusable credentials after oauth login"
    );
    assert_eq!(
        finish_login(LoginOutcome::Failed(Step::Connect, "no".to_string())).unwrap_err().reason,
        "session connect failed: no"
    );
    assert_eq!(
        finish_login(LoginOutcome::Failed(Step::Local, "disk full".to_string())).unwrap_err().reason,
        "disk full"
    );
}

#[test]
fn login_result_with_given_json() {
    let result = result_with_json(&stored(None), Ok("{}".to_string())).unwrap();
    assert_eq!(result.username, "");
    assert_eq!(result.credentials_json, "{}");
    assert_eq!(
        result_with_json(&stored(None), Err("cannot write".to_string())).unwrap_err().reason,
        "cannot write"
    );
}

#[test]
fn zeroconf_announcement() {
    let plan = start_zeroconf_login(" dev ".to_string(), None, None).unwrap();
    assert_eq!(plan.device_id, "dev");
    assert_eq!(plan.name, "LoxAudio");
    assert_eq!(plan.wait_ms, 120_000);
    assert_eq!(plan.device_type, DeviceType::Speaker);
    let plan =
        start_zeroconf_login("dev".to_string(), Some("".to_string()), Some(0)).unwrap();
    assert_eq!(plan.name, "");
    assert_eq!(plan.wait_ms, 0);
    for id in ["", " ", "\u{3000}"] {
        assert_eq!(
            start_zeroconf_login(id.to_string(), None, None).unwrap_err().reason,
            "device_id is required"
        );
    }
}

#[test]
fn zeroconf_outcomes() {
    let reason = |outcome| finish_zeroconf_login(outcome).unwrap_err().reason;
    assert_eq!(
        reason(ZeroconfOutcome::NotLaunched("port in use".to_string())),
        "zeroconf launch failed: port in use"
    );
    assert_eq!(reason(ZeroconfOutcome::TimedOut), "zeroconf login timed out");
    assert_eq!(reason(ZeroconfOutcome::Ended), "zeroconf ended without credentials");
    let result = finish_zeroconf_login(ZeroconfOutcome::Found(stored(None))).unwrap();
    assert_eq!(result.username, "");
    assert!(result.credentials_json.contains("\"username\": null"));
}
