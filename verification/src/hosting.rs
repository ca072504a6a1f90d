//! Starting a connect host: with stored credentials, or with an access token that is exchanged for
//! credentials first.

use vstd::prelude::*;

use crate::connect::{
    connect_settings, host_scope, settings_for, ConnectSettings, ConnectSettingsView,
};
use crate::credentials::{
    credentials_json, json_view, stores, with_access_token, write_json, CredentialsView,
    LoginCredentials,
};
use crate::error::{printed, Error};
use crate::events::{log_views, EventContext, EventContextView, LogEvent};
use crate::handles::{ConnectHandle, CHANNELS, SAMPLE_RATE};
use crate::logging::{log_line, push_log};
use crate::login::{token_login, LoginOutcome, LoginPlan, LoginPlanView};
use crate::session::{
    choose_client_id, client_id_for, drop_blank, load_credentials, loaded, step_failed, step_prefix,
    unless_blank, FileLookup, Step,
};
use crate::text::{blank, clone_opt, is_blank, opt_view};

verus! {

/// Legacy entry point, which always fails.
pub fn start_connect_device(
    _credentials_path: String,
    _name: String,
    _device_id: String,
) -> (r: Result<ConnectHandle, Error>)
    ensures
        r is Err,
        r->Err_0@
            == "startConnectDevice is deprecated; use startConnectDeviceWithToken(accessToken, clientId, ...)"@,
{
    Err(
        Error::from_reason(
            "startConnectDevice is deprecated; use startConnectDeviceWithToken(accessToken, clientId, ...)",
        ),
    )
}

/// A host that a caller asks for.
#[derive(Debug)]
pub struct HostRequest {
    /// The stored credentials, or the path of a file that holds them.
    pub credentials_path: String,
    pub name: String,
    pub device_id: String,
}

/// A [`HostRequest`] as mathematical values.
#[verifier::ext_equal]
pub struct HostRequestView {
    pub credentials_path: Seq<char>,
    pub name: Seq<char>,
    pub device_id: Seq<char>,
}

impl View for HostRequest {
    type V = HostRequestView;

    open spec fn view(&self) -> HostRequestView {
        HostRequestView {
            credentials_path: self.credentials_path@,
            name: self.name@,
            device_id: self.device_id@,
        }
    }
}

/// A request, or the reason why there is none.
pub open spec fn request_view(r: Result<HostRequest, Error>) -> Result<HostRequestView, Seq<char>> {
    match r {
        Ok(request) => Ok(request@),
        Err(e) => Err(e@),
    }
}

/// Starts a connect host with an existing credentials blob (JSON), or with the path of a file that
/// holds one. This allows credentials from a Zeroconf login or any other flow to be used again.
pub fn start_connect_device_with_credentials(
    credentials_path: String,
    name: String,
    device_id: String,
) -> (r: Result<HostRequest, Error>)
    ensures
        request_view(r) == (if blank(credentials_path@) {
            Err("credentials payload is required"@)
        } else {
            Ok(
                HostRequestView {
                    credentials_path: credentials_path@,
                    name: name@,
                    device_id: device_id@,
                },
            )
        }),
{
    if is_blank(credentials_path.as_str()) {
        return Err(Error::from_reason("credentials payload is required"));
    }
    Ok(HostRequest { credentials_path, name, device_id })
}

/// A connect host that is to be started.
#[derive(Debug)]
pub struct HostPlan {
    pub credentials: LoginCredentials,
    pub device_id: String,
    /// The client's identifier; where there is none, the default one is kept.
    pub client_id: Option<String>,
    pub settings: ConnectSettings,
}

/// A [`HostPlan`] as mathematical values.
#[verifier::ext_equal]
pub struct HostPlanView {
    pub credentials: CredentialsView,
    pub device_id: Seq<char>,
    pub client_id: Option<Seq<char>>,
    pub settings: ConnectSettingsView,
}

impl View for HostPlan {
    type V = HostPlanView;

    open spec fn view(&self) -> HostPlanView {
        HostPlanView {
            credentials: self.credentials@,
            device_id: self.device_id@,
            client_id: opt_view(self.client_id),
            settings: self.settings@,
        }
    }
}

/// A plan, or the reason why there is none.
pub open spec fn host_view(r: Result<HostPlan, Error>) -> Result<HostPlanView, Seq<char>> {
    match r {
        Ok(plan) => Ok(plan@),
        Err(e) => Err(e@),
    }
}

/// The host for loaded credentials, or the reason why there is none.
pub open spec fn host_with(
    credentials: Result<CredentialsView, Seq<char>>,
    request: HostRequestView,
    client_override: Option<Seq<char>>,
) -> Result<HostPlanView, Seq<char>> {
    match credentials {
        Ok(credentials) => Ok(
            HostPlanView {
                credentials,
                device_id: request.device_id,
                client_id: unless_blank(client_override),
                settings: settings_for(request.name),
            },
        ),
        Err(reason) => Err(reason),
    }
}

/// What a request for a host led to.
#[derive(Debug)]
pub struct HostAttempt {
    /// What all events and log lines of the host speak of.
    pub ctx: EventContext,
    pub logs: Vec<LogEvent>,
    pub plan: Result<HostPlan, Error>,
}

/// The context of a host's events: no track is known beforehand.
pub open spec fn host_context(device_id: Seq<char>, session_id: Seq<char>) -> EventContextView {
    EventContextView {
        device_id: Some(device_id),
        session_id: Some(session_id),
        track_id: None,
        uri: None,
    }
}

/// Starts the host that is asked for, under the given session identifier. `file` is what is found
/// under the path of the credentials, `client_override` the client's identifier from the
/// environment.
pub fn start_connect_device_inner(
    request: HostRequest,
    session_id: String,
    file: FileLookup,
    client_override: Option<String>,
    logging: bool,
) -> (attempt: HostAttempt)
    ensures
        attempt.ctx@ == host_context(request@.device_id, session_id@),
        log_views(attempt.logs@) == log_line(
            logging,
            "info"@,
            "connect host start"@,
            host_scope(),
            attempt.ctx@,
        ),
        host_view(attempt.plan) == host_with(
            loaded(request@.credentials_path, file),
            request@,
            opt_view(client_override),
        ),
{
    let ctx = EventContext {
        device_id: Some(request.device_id.clone()),
        session_id: Some(session_id),
        track_id: None,
        uri: None,
    };
    let mut logs: Vec<LogEvent> = Vec::new();
    assert(log_views(logs@) =~= Seq::empty());
    push_log(&mut logs, logging, "info", "connect host start", "connect_host", &ctx);
    assert(log_views(logs@) =~= log_line(
        logging,
        "info"@,
        "connect host start"@,
        host_scope(),
        ctx@,
    ));
    let plan = match load_credentials(request.credentials_path.as_str(), file) {
        Ok(credentials) => Ok(
            HostPlan {
                credentials,
                device_id: request.device_id,
                client_id: drop_blank(client_override),
                settings: connect_settings(request.name),
            },
        ),
        Err(e) => Err(e),
    };
    HostAttempt { ctx, logs, plan }
}

/// The handle of the host, once it runs or a step of starting it has failed with the given text.
pub fn host_started(outcome: Result<(), (Step, String)>) -> (r: Result<ConnectHandle, Error>)
    ensures
        match outcome {
            Ok(_) => r is Ok && r->Ok_0.stop_pending && r->Ok_0.sample_rate == SAMPLE_RATE
                && r->Ok_0.channels == CHANNELS,
            Err(failure) => r is Err && r->Err_0@ == step_prefix(failure.0) + failure.1@,
        },
{
    match outcome {
        Ok(_) => Ok(ConnectHandle::open()),
        Err((step, text)) => Err(step_failed(step, text.as_str())),
    }
}

/// A host that waits for its access token to be exchanged for credentials.
#[derive(Debug)]
pub struct TokenHost {
    /// What the client's identifier in the environment is to be set to beforehand, if anything.
    pub export_client_id: Option<String>,
    pub login: LoginPlan,
    pub name: String,
    pub device_id: String,
}

/// A [`TokenHost`] as mathematical values.
#[verifier::ext_equal]
pub struct TokenHostView {
    pub export_client_id: Option<Seq<char>>,
    pub login: LoginPlanView,
    pub name: Seq<char>,
    pub device_id: Seq<char>,
}

impl View for TokenHost {
    type V = TokenHostView;

    open spec fn view(&self) -> TokenHostView {
        TokenHostView {
            export_client_id: opt_view(self.export_client_id),
            login: self.login@,
            name: self.name@,
            device_id: self.device_id@,
        }
    }
}

/// A host that waits, or the reason why there is none.
pub open spec fn token_host_view(r: Result<TokenHost, Error>) -> Result<TokenHostView, Seq<char>> {
    match r {
        Ok(host) => Ok(host@),
        Err(e) => Err(e@),
    }
}

/// The host that an access token asks for, or the reason why it is refused.
pub open spec fn token_host_for(
    access_token: Seq<char>,
    client_id: Option<Seq<char>>,
    name: Seq<char>,
    device_id: Seq<char>,
    client_override: Option<Seq<char>>,
) -> Result<TokenHostView, Seq<char>> {
    if blank(access_token) {
        Err("access token is required"@)
    } else {
        Ok(
            TokenHostView {
                export_client_id: unless_blank(client_id),
                login: token_login(
                    access_token,
                    Some(device_id),
                    client_id_for(client_id, client_override),
                ),
                name,
                device_id,
            },
        )
    }
}

/// Starts a connect host with a Web API access token and, where one is given, a client identifier.
/// The token is exchanged for reusable credentials first. A client identifier that is given is set
/// in the environment, where it replaces the one found there before (`client_override`).
pub fn start_connect_device_with_token(
    access_token: String,
    client_id: Option<String>,
    name: String,
    device_id: String,
    client_override: Option<String>,
) -> (r: Result<TokenHost, Error>)
    ensures
        token_host_view(r) == token_host_for(
            access_token@,
            opt_view(client_id),
            name@,
            device_id@,
            opt_view(client_override),
        ),
{
    if is_blank(access_token.as_str()) {
        return Err(Error::from_reason("access token is required"));
    }
    let export_client_id = drop_blank(clone_opt(&client_id));
    let login = LoginPlan {
        credentials: with_access_token(access_token),
        device_id: Some(device_id.clone()),
        client_id: choose_client_id(client_id, client_override),
        store_credentials: true,
    };
    Ok(TokenHost { export_client_id, login, name, device_id })
}

/// The request that follows an exchange, where `json` is the stored form of the credentials or says
/// why there is none. The reason is that of an error that has been printed.
pub open spec fn exchanged_for(
    host: TokenHostView,
    json: Result<Seq<char>, Seq<char>>,
) -> Result<HostRequestView, Seq<char>> {
    match json {
        Ok(text) => Ok(
            HostRequestView {
                credentials_path: text,
                name: host.name,
                device_id: host.device_id,
            },
        ),
        Err(reason) => Err(printed(reason)),
    }
}

impl TokenHost {
    /// The request that follows an exchange, where `json` is the stored form of the credentials or
    /// says why there is none.
    pub fn exchanged_with_json(self, json: Result<String, String>) -> (r: Result<
        HostRequest,
        Error,
    >)
        ensures
            request_view(r) == exchanged_for(self@, json_view(json)),
    {
        match json {
            Ok(credentials_path) => Ok(
                HostRequest { credentials_path, name: self.name, device_id: self.device_id },
            ),
            Err(reason) => Err(Error { reason: Error { reason }.to_text() }),
        }
    }

    /// The request that follows the exchange of the access token.
    pub fn exchanged(self, outcome: LoginOutcome) -> (r: Result<HostRequest, Error>)
        ensures
            match outcome {
                LoginOutcome::Failed(step, text) => request_view(r) == exchanged_for(
                    self@,
                    Err(step_prefix(step) + text@),
                ),
                LoginOutcome::Connected(None) => request_view(r) == exchanged_for(
                    self@,
                    Err("no reusable credentials after oauth login"@),
                ),
                LoginOutcome::Connected(Some(credentials)) => {
                    &&& request_view(r) == exchanged_for(self@, credentials_json(credentials@))
                    &&& r is Ok
                    &&& stores(r->Ok_0.credentials_path@, credentials@)
                },
            },
    {
        match outcome {
            LoginOutcome::Failed(step, text) => {
                let e = step_failed(step, text.as_str());
                self.exchanged_with_json(Err(e.reason))
            },
            LoginOutcome::Connected(None) => self.exchanged_with_json(
                Err("no reusable credentials after oauth login".to_owned()),
            ),
            LoginOutcome::Connected(Some(credentials)) => self.exchanged_with_json(
                write_json(&credentials),
            ),
        }
    }
}

/// What stores credentials can be used to host: the host logs in with the very credentials that
/// were stored, whichever login gave them.
pub proof fn law_hosting_reuses_credentials(
    request: HostRequestView,
    credentials: CredentialsView,
    client_override: Option<Seq<char>>,
)
    requires
        stores(request.credentials_path, credentials),
    ensures
        !blank(request.credentials_path),
        host_with(loaded(request.credentials_path, FileLookup::Missing), request, client_override)
            == host_with(Ok(credentials), request, client_override),
{
}

/// A client identifier that comes with an access token counts for the exchange, and it is the one
/// that the environment then has; else the environment is left alone and its identifier counts.
pub proof fn law_token_client_id(
    access_token: Seq<char>,
    client_id: Option<Seq<char>>,
    name: Seq<char>,
    device_id: Seq<char>,
    client_override: Option<Seq<char>>,
)
    requires
        !blank(access_token),
    ensures
        ({
            let host = token_host_for(access_token, client_id, name, device_id, client_override)->Ok_0;
            let in_environment = match host.export_client_id {
                Some(id) => Some(id),
                None => client_override,
            };
            host.login.client_id == unless_blank(in_environment)
        }),
{
}

} // verus!
