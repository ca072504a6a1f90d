//! Logins that give credentials for later use: with an access token, and over Zeroconf.

use vstd::prelude::*;
use vstd::string::*;

use crate::connect::DeviceType;
use crate::credentials::{
    json_view, pretty_credentials_json, stores, token_credentials, with_access_token,
    write_pretty_json, CredentialsView, LoginCredentials,
};
use crate::error::Error;
use crate::session::{step_failed, step_prefix, Step};
use crate::session_ids::{law_numbered_injective, numbered};
use crate::text::{blank, concat, decimal_text, is_blank, opt_view, trim, trimmed};
use crate::text::law_trimmed_empty_iff_blank;

verus! {

/// Result of a credentials login flow.
#[derive(Debug)]
pub struct CredentialsResult {
    pub username: String,
    pub credentials_json: String,
}

/// A session that is to be connected in order to be given reusable credentials.
#[derive(Debug)]
pub struct LoginPlan {
    pub credentials: LoginCredentials,
    /// The device's identifier; where there is none, the default one is kept.
    pub device_id: Option<String>,
    /// The client's identifier; where there is none, the default one is kept.
    pub client_id: Option<String>,
    /// Whether the session is to keep the reusable credentials that it is given.
    pub store_credentials: bool,
}

/// A [`LoginPlan`] as mathematical values.
#[verifier::ext_equal]
pub struct LoginPlanView {
    pub credentials: CredentialsView,
    pub device_id: Option<Seq<char>>,
    pub client_id: Option<Seq<char>>,
    pub store_credentials: bool,
}

impl View for LoginPlan {
    type V = LoginPlanView;

    open spec fn view(&self) -> LoginPlanView {
        LoginPlanView {
            credentials: self.credentials@,
            device_id: opt_view(self.device_id),
            client_id: opt_view(self.client_id),
            store_credentials: self.store_credentials,
        }
    }
}

/// A plan, or the reason why there is none.
pub open spec fn login_view(r: Result<LoginPlan, Error>) -> Result<LoginPlanView, Seq<char>> {
    match r {
        Ok(plan) => Ok(plan@),
        Err(e) => Err(e@),
    }
}

/// The login that exchanges an access token for reusable credentials.
pub open spec fn token_login(
    access_token: Seq<char>,
    device_id: Option<Seq<char>>,
    client_id: Option<Seq<char>>,
) -> LoginPlanView {
    LoginPlanView {
        credentials: token_credentials(access_token),
        device_id,
        client_id,
        store_credentials: true,
    }
}

/// Begins a login with an access token. The token is used as it is given, white space included.
pub fn login_with_access_token(access_token: String, device_name: Option<String>) -> (r: Result<
    LoginPlan,
    Error,
>)
    ensures
        login_view(r) == (if blank(access_token@) {
            Err("access token is required"@)
        } else {
            Ok(token_login(access_token@, opt_view(device_name), None))
        }),
{
    if is_blank(access_token.as_str()) {
        return Err(Error::from_reason("access token is required"));
    }
    Ok(
        LoginPlan {
            credentials: with_access_token(access_token),
            device_id: device_name,
            client_id: None,
            store_credentials: true,
        },
    )
}

/// The name of the directory in which a login keeps its credentials for the time being, where the
/// login starts at `epoch_ms` in the given process.
pub open spec fn dir_name_of(prefix: Seq<char>, epoch_ms: u128, process: u32) -> Seq<char> {
    numbered(numbered(prefix, epoch_ms as nat), process as nat)
}

fn dir_name(prefix: &str, epoch_ms: u128, process: u32) -> (name: String)
    ensures
        name@ == dir_name_of(prefix@, epoch_ms, process),
{
    concat(prefix, "-").concat(decimal_text(epoch_ms).as_str()).concat("-").concat(
        decimal_text(process as u128).as_str(),
    )
}

/// The name of the directory for a login with an access token.
pub fn login_dir_name(epoch_ms: u128, process: u32) -> (name: String)
    ensures
        name@ == dir_name_of("lox-librespot-oauth"@, epoch_ms, process),
{
    dir_name("lox-librespot-oauth", epoch_ms, process)
}

/// The name of the directory for the login of a connect host.
pub fn connect_dir_name(epoch_ms: u128, process: u32) -> (name: String)
    ensures
        name@ == dir_name_of("lox-librespot-oauth-connect"@, epoch_ms, process),
{
    dir_name("lox-librespot-oauth-connect", epoch_ms, process)
}

/// The name of a directory determines when, in which process and for what kind of login it is made:
/// no two logins share a directory, unless they start in one process in the same millisecond.
pub proof fn law_dir_name_injective(
    p: Seq<char>,
    epoch_ms: u128,
    process: u32,
    q: Seq<char>,
    other_ms: u128,
    other_process: u32,
)
    requires
        dir_name_of(p, epoch_ms, process) == dir_name_of(q, other_ms, other_process),
    ensures
        p == q,
        epoch_ms == other_ms,
        process == other_process,
{
    law_numbered_injective(
        numbered(p, epoch_ms as nat),
        process as nat,
        numbered(q, other_ms as nat),
        other_process as nat,
    );
    law_numbered_injective(p, epoch_ms as nat, q, other_ms as nat);
}

/// The user name and the stored form that a login gives, or the reason why it gives none.
pub open spec fn result_view(r: Result<CredentialsResult, Error>) -> Result<
    (Seq<char>, Seq<char>),
    Seq<char>,
> {
    match r {
        Ok(result) => Ok((result.username@, result.credentials_json@)),
        Err(e) => Err(e@),
    }
}

/// The result of a login that gave `credentials`, where `json` is their stored form or says why
/// there is none. A missing user name becomes an empty one.
pub open spec fn login_result(
    credentials: CredentialsView,
    json: Result<Seq<char>, Seq<char>>,
) -> Result<(Seq<char>, Seq<char>), Seq<char>> {
    match json {
        Ok(text) => Ok(
            (
                match credentials.username {
                    Some(name) => name,
                    None => Seq::empty(),
                },
                text,
            ),
        ),
        Err(reason) => Err(reason),
    }
}

/// The result of a login that gave `credentials`, where `json` is their stored form or says why
/// there is none.
pub fn result_with_json(credentials: &LoginCredentials, json: Result<String, String>) -> (r: Result<
    CredentialsResult,
    Error,
>)
    ensures
        result_view(r) == login_result(credentials@, json_view(json)),
{
    match json {
        Ok(credentials_json) => {
            let username = match &credentials.username {
                Some(name) => name.clone(),
                None => String::new(),
            };
            assert(credentials.username is None ==> username@ =~= Seq::empty());
            Ok(CredentialsResult { username, credentials_json })
        },
        Err(reason) => Err(Error { reason }),
    }
}

/// The result of a login that gave `credentials`. What is stored reads back as those credentials.
pub fn credentials_result(credentials: &LoginCredentials) -> (r: Result<CredentialsResult, Error>)
    ensures
        result_view(r) == login_result(credentials@, pretty_credentials_json(credentials@)),
        r is Ok,
        stores(r->Ok_0.credentials_json@, credentials@),
{
    let json = write_pretty_json(credentials);
    result_with_json(credentials, json)
}

/// How a login with an access token went.
#[derive(Debug)]
pub enum LoginOutcome {
    /// A step failed with the given text.
    Failed(Step, String),
    /// The session was connected; it was given these reusable credentials, if any.
    Connected(Option<LoginCredentials>),
}

/// Ends a login with an access token.
pub fn finish_login(outcome: LoginOutcome) -> (r: Result<CredentialsResult, Error>)
    ensures
        match outcome {
            LoginOutcome::Failed(step, text) => r is Err && r->Err_0@ == step_prefix(step) + text@,
            LoginOutcome::Connected(None) => r is Err && r->Err_0@
                == "no reusable credentials after oauth login"@,
            LoginOutcome::Connected(Some(credentials)) => {
                &&& result_view(r) == login_result(
                    credentials@,
                    pretty_credentials_json(credentials@),
                )
                &&& r is Ok
                &&& stores(r->Ok_0.credentials_json@, credentials@)
            },
        },
{
    match outcome {
        LoginOutcome::Failed(step, text) => Err(step_failed(step, text.as_str())),
        LoginOutcome::Connected(None) => Err(
            Error::from_reason("no reusable credentials after oauth login"),
        ),
        LoginOutcome::Connected(Some(credentials)) => credentials_result(&credentials),
    }
}

/// How a Zeroconf login is announced.
#[derive(Debug)]
pub struct ZeroconfPlan {
    /// The identifier of the device, and that of the client.
    pub device_id: String,
    pub name: String,
    pub device_type: DeviceType,
    /// How long to wait for a user, in milliseconds.
    pub wait_ms: u64,
}

/// A [`ZeroconfPlan`] as mathematical values.
#[verifier::ext_equal]
pub struct ZeroconfPlanView {
    pub device_id: Seq<char>,
    pub name: Seq<char>,
    pub device_type: DeviceType,
    pub wait_ms: u64,
}

impl View for ZeroconfPlan {
    type V = ZeroconfPlanView;

    open spec fn view(&self) -> ZeroconfPlanView {
        ZeroconfPlanView {
            device_id: self.device_id@,
            name: self.name@,
            device_type: self.device_type,
            wait_ms: self.wait_ms,
        }
    }
}

/// How long a Zeroconf login waits unless told otherwise, in milliseconds.
pub const DEFAULT_ZEROCONF_WAIT_MS: u32 = 120_000;

/// A Zeroconf plan, or the reason why there is none.
pub open spec fn zeroconf_view(r: Result<ZeroconfPlan, Error>) -> Result<
    ZeroconfPlanView,
    Seq<char>,
> {
    match r {
        Ok(plan) => Ok(plan@),
        Err(e) => Err(e@),
    }
}

/// The announcement for a Zeroconf login: a speaker.
pub open spec fn zeroconf_for(
    device_id: Seq<char>,
    name: Option<Seq<char>>,
    timeout_ms: Option<u32>,
) -> Result<ZeroconfPlanView, Seq<char>> {
    if blank(device_id) {
        Err("device_id is required"@)
    } else {
        Ok(
            ZeroconfPlanView {
                device_id: trimmed(device_id),
                name: match name {
                    Some(n) => n,
                    None => "LoxAudio"@,
                },
                device_type: DeviceType::Speaker,
                wait_ms: match timeout_ms {
                    Some(ms) => ms as u64,
                    None => DEFAULT_ZEROCONF_WAIT_MS as u64,
                },
            },
        )
    }
}

/// Begins a Zeroconf login.
pub fn start_zeroconf_login(
    device_id: String,
    name: Option<String>,
    timeout_ms: Option<u32>,
) -> (r: Result<ZeroconfPlan, Error>)
    ensures
        zeroconf_view(r) == zeroconf_for(device_id@, opt_view(name), timeout_ms),
{
    proof {
        law_trimmed_empty_iff_blank(device_id@);
    }
    let id = trim(device_id.as_str());
    if id.is_empty() {
        return Err(Error::from_reason("device_id is required"));
    }
    let name: String = match name {
        Some(n) => n,
        None => "LoxAudio".to_owned(),
    };
    let wait_ms: u64 = match timeout_ms {
        Some(ms) => ms as u64,
        None => DEFAULT_ZEROCONF_WAIT_MS as u64,
    };
    Ok(
        ZeroconfPlan {
            device_id: id.to_owned(),
            name,
            device_type: DeviceType::Speaker,
            wait_ms,
        },
    )
}

/// How a Zeroconf login went.
#[derive(Debug)]
pub enum ZeroconfOutcome {
    /// The announcement failed with the given text.
    NotLaunched(String),
    TimedOut,
    /// The announcement ended before a user came.
    Ended,
    Found(LoginCredentials),
}

/// Ends a Zeroconf login.
pub fn finish_zeroconf_login(outcome: ZeroconfOutcome) -> (r: Result<CredentialsResult, Error>)
    ensures
        match outcome {
            ZeroconfOutcome::NotLaunched(text) => r is Err && r->Err_0@
                == "zeroconf launch failed: "@ + text@,
            ZeroconfOutcome::TimedOut => r is Err && r->Err_0@ == "zeroconf login timed out"@,
            ZeroconfOutcome::Ended => r is Err && r->Err_0@ == "zeroconf ended without credentials"@,
            ZeroconfOutcome::Found(credentials) => {
                &&& result_view(r) == login_result(
                    credentials@,
                    pretty_credentials_json(credentials@),
                )
                &&& r is Ok
                &&& stores(r->Ok_0.credentials_json@, credentials@)
            },
        },
{
    match outcome {
        ZeroconfOutcome::NotLaunched(text) => Err(step_failed(Step::LaunchZeroconf, text.as_str())),
        ZeroconfOutcome::TimedOut => Err(Error::from_reason("zeroconf login timed out")),
        ZeroconfOutcome::Ended => Err(Error::from_reason("zeroconf ended without credentials")),
        ZeroconfOutcome::Found(credentials) => credentials_result(&credentials),
    }
}

} // verus!
