//! Sessions: what a caller's options ask for, and what opening a session gives.

use vstd::prelude::*;
use vstd::string::*;

use crate::credentials::{
    parse_credentials, parsed_credentials, parsed_view, stores, token_credentials,
    with_access_token, CredentialsView, LoginCredentials,
};
use crate::error::Error;
use crate::text::{blank, is_blank, opt_view, trim, trimmed, white_space};
use crate::text::law_trimmed_empty_iff_blank;

verus! {

/// Options used to create a session.
#[derive(Debug)]
pub struct CreateSessionOpts {
    pub access_token: Option<String>,
    pub client_id: Option<String>,
    pub device_name: Option<String>,
}

/// A session that is to be connected.
#[derive(Debug)]
pub struct SessionPlan {
    pub credentials: LoginCredentials,
    pub device_id: String,
    /// The client's identifier; where there is none, the default one is kept.
    pub client_id: Option<String>,
    /// Whether the session is to keep the reusable credentials that it is given.
    pub store_credentials: bool,
}

/// A [`SessionPlan`] as mathematical values.
#[verifier::ext_equal]
pub struct SessionPlanView {
    pub credentials: CredentialsView,
    pub device_id: Seq<char>,
    pub client_id: Option<Seq<char>>,
    pub store_credentials: bool,
}

impl View for SessionPlan {
    type V = SessionPlanView;

    open spec fn view(&self) -> SessionPlanView {
        SessionPlanView {
            credentials: self.credentials@,
            device_id: self.device_id@,
            client_id: opt_view(self.client_id),
            store_credentials: self.store_credentials,
        }
    }
}

/// A plan, or the reason why there is none.
pub open spec fn plan_view(r: Result<SessionPlan, Error>) -> Result<SessionPlanView, Seq<char>> {
    match r {
        Ok(plan) => Ok(plan@),
        Err(e) => Err(e@),
    }
}

/// An optional text, dropped where it is blank.
pub open spec fn unless_blank(text: Option<Seq<char>>) -> Option<Seq<char>> {
    match text {
        Some(t) => if blank(t) {
            None
        } else {
            Some(t)
        },
        None => None,
    }
}

/// An optional text, dropped where it is blank.
pub(crate) fn drop_blank(text: Option<String>) -> (r: Option<String>)
    ensures
        opt_view(r) == unless_blank(opt_view(text)),
{
    match text {
        Some(t) => if is_blank(t.as_str()) {
            None
        } else {
            Some(t)
        },
        None => None,
    }
}

/// The device's identifier for a given device name: `librespot` where there is no name to speak of.
pub open spec fn device_id_for(device_name: Option<Seq<char>>) -> Seq<char> {
    match unless_blank(device_name) {
        Some(name) => name,
        None => "librespot"@,
    }
}

fn device_id_or_default(device_name: Option<String>) -> (id: String)
    ensures
        id@ == device_id_for(opt_view(device_name)),
{
    match drop_blank(device_name) {
        Some(name) => name,
        None => "librespot".to_owned(),
    }
}

/// The client's identifier: the one asked for, else the one from the environment.
pub open spec fn client_id_for(
    asked: Option<Seq<char>>,
    client_override: Option<Seq<char>>,
) -> Option<Seq<char>> {
    match unless_blank(asked) {
        Some(id) => Some(id),
        None => unless_blank(client_override),
    }
}

/// The client's identifier: the one asked for, else the one from the environment.
pub(crate) fn choose_client_id(
    asked: Option<String>,
    client_override: Option<String>,
) -> (r: Option<String>)
    ensures
        opt_view(r) == client_id_for(opt_view(asked), opt_view(client_override)),
{
    match drop_blank(asked) {
        Some(id) => Some(id),
        None => drop_blank(client_override),
    }
}

/// The session that options ask for, or the reason why they are refused.
pub open spec fn session_for(
    access_token: Option<Seq<char>>,
    client_id: Option<Seq<char>>,
    device_name: Option<Seq<char>>,
    client_override: Option<Seq<char>>,
) -> Result<SessionPlanView, Seq<char>> {
    match unless_blank(access_token) {
        None => Err("access token is required; obtain a user token via PKCE/Web API"@),
        Some(token) => Ok(
            SessionPlanView {
                credentials: token_credentials(trimmed(token)),
                device_id: device_id_for(device_name),
                client_id: client_id_for(client_id, client_override),
                store_credentials: false,
            },
        ),
    }
}

/// Creates a session for a Web API access token. The client's identifier is optional; it comes with
/// the options, or else from the environment (`client_override`).
pub fn create_session(opts: CreateSessionOpts, client_override: Option<String>) -> (r: Result<
    SessionPlan,
    Error,
>)
    ensures
        plan_view(r) == session_for(
            opt_view(opts.access_token),
            opt_view(opts.client_id),
            opt_view(opts.device_name),
            opt_view(client_override),
        ),
{
    let given: String = match opts.access_token {
        Some(token) => token,
        None => String::new(),
    };
    proof {
        law_trimmed_empty_iff_blank(given@);
    }
    let token = trim(given.as_str());
    if token.is_empty() {
        return Err(
            Error::from_reason("access token is required; obtain a user token via PKCE/Web API"),
        );
    }
    Ok(
        SessionPlan {
            credentials: with_access_token(token.to_owned()),
            device_id: device_id_or_default(opts.device_name),
            client_id: choose_client_id(opts.client_id, client_override),
            store_credentials: false,
        },
    )
}

/// What is found under a path.
#[derive(Debug)]
pub enum FileLookup {
    Missing,
    Contents(String),
    /// There is a file, but reading it fails for this reason.
    Unreadable(String),
}

/// The stored credentials that a caller hands over: the contents of a file where the text is the
/// path of one, else the text itself.
pub open spec fn stored_form(payload: Seq<char>, file: FileLookup) -> Result<Seq<char>, Seq<char>> {
    match file {
        FileLookup::Missing => Ok(payload),
        FileLookup::Contents(text) => Ok(text@),
        FileLookup::Unreadable(reason) => Err(reason@),
    }
}

/// Credentials, or the reason why there are none, for what reading a stored form gives.
pub open spec fn accepted(parsed: Result<CredentialsView, Seq<char>>) -> Result<
    CredentialsView,
    Seq<char>,
> {
    match parsed {
        Ok(credentials) => Ok(credentials),
        Err(reason) => Err("invalid credentials json: "@ + reason),
    }
}

/// The credentials in the stored form that a caller hands over, or the reason why there are none.
pub open spec fn loaded(payload: Seq<char>, file: FileLookup) -> Result<CredentialsView, Seq<char>> {
    match stored_form(payload, file) {
        Ok(json) => accepted(parsed_credentials(json)),
        Err(reason) => Err(reason),
    }
}

/// Credentials, or the reason why there are none.
pub open spec fn loaded_view(r: Result<LoginCredentials, Error>) -> Result<
    CredentialsView,
    Seq<char>,
> {
    match r {
        Ok(c) => Ok(c@),
        Err(e) => Err(e@),
    }
}

/// Credentials as they were read, or the error that says why they could not be.
pub fn accept_parsed(parsed: Result<LoginCredentials, String>) -> (r: Result<
    LoginCredentials,
    Error,
>)
    ensures
        loaded_view(r) == accepted(parsed_view(parsed)),
{
    match parsed {
        Ok(credentials) => Ok(credentials),
        Err(reason) => Err(Error::with_detail("invalid credentials json: ", reason.as_str())),
    }
}

/// The credentials in the stored form that a caller hands over.
pub fn load_credentials(payload: &str, file: FileLookup) -> (r: Result<LoginCredentials, Error>)
    ensures
        loaded_view(r) == loaded(payload@, file),
{
    match file {
        FileLookup::Missing => accept_parsed(parse_credentials(payload)),
        FileLookup::Contents(text) => accept_parsed(parse_credentials(text.as_str())),
        FileLookup::Unreadable(reason) => Err(Error { reason }),
    }
}

/// The session for loaded credentials, or the reason why there is none.
pub open spec fn session_with(
    credentials: Result<CredentialsView, Seq<char>>,
    device_name: Option<Seq<char>>,
    client_override: Option<Seq<char>>,
) -> Result<SessionPlanView, Seq<char>> {
    match credentials {
        Ok(credentials) => Ok(
            SessionPlanView {
                credentials,
                device_id: device_id_for(device_name),
                client_id: unless_blank(client_override),
                store_credentials: false,
            },
        ),
        Err(reason) => Err(reason),
    }
}

/// The session for loaded credentials.
pub fn session_with_credentials(
    credentials: Result<LoginCredentials, Error>,
    device_name: Option<String>,
    client_override: Option<String>,
) -> (r: Result<SessionPlan, Error>)
    ensures
        plan_view(r) == session_with(
            loaded_view(credentials),
            opt_view(device_name),
            opt_view(client_override),
        ),
{
    match credentials {
        Ok(credentials) => Ok(
            SessionPlan {
                credentials,
                device_id: device_id_or_default(device_name),
                client_id: drop_blank(client_override),
                store_credentials: false,
            },
        ),
        Err(e) => Err(e),
    }
}

/// The session for stored credentials, or the reason why there is none.
pub open spec fn session_from_stored(
    payload: Seq<char>,
    file: FileLookup,
    device_name: Option<Seq<char>>,
    client_override: Option<Seq<char>>,
) -> Result<SessionPlanView, Seq<char>> {
    if blank(payload) {
        Err("credentials payload is required"@)
    } else {
        session_with(loaded(payload, file), device_name, client_override)
    }
}

/// Creates a session for a reusable credentials blob (JSON), or for the path of a file that holds
/// one; `file` is what is found under that path. This avoids relying on a Web API access token for
/// streaming. `client_override` is the client's identifier from the environment.
pub fn create_session_with_credentials(
    credentials_path: String,
    device_name: Option<String>,
    file: FileLookup,
    client_override: Option<String>,
) -> (r: Result<SessionPlan, Error>)
    ensures
        plan_view(r) == session_from_stored(
            credentials_path@,
            file,
            opt_view(device_name),
            opt_view(client_override),
        ),
{
    if is_blank(credentials_path.as_str()) {
        return Err(Error::from_reason("credentials payload is required"));
    }
    session_with_credentials(
        load_credentials(credentials_path.as_str(), file),
        device_name,
        client_override,
    )
}

/// A step outside this library that can fail.
#[derive(Clone, Copy, Debug, PartialEq, Eq, Structural)]
pub enum Step {
    Connect,
    OpenMixer,
    StartHost,
    LaunchZeroconf,
    LoadItem,
    OpenFile,
    /// Work on files, clocks and caches, whose errors speak for themselves.
    Local,
}

/// What precedes the text of an error of a step.
pub open spec fn step_prefix(step: Step) -> Seq<char> {
    match step {
        Step::Connect => "session connect failed: "@,
        Step::OpenMixer => "mixer init failed: "@,
        Step::StartHost => "spirc start failed: "@,
        Step::LaunchZeroconf => "zeroconf launch failed: "@,
        Step::LoadItem => "failed to load audio item: "@,
        Step::OpenFile => "failed to open audio file: "@,
        Step::Local => Seq::empty(),
    }
}

/// The error for a step that failed with the given text.
pub fn step_failed(step: Step, text: &str) -> (e: Error)
    ensures
        e@ == step_prefix(step) + text@,
{
    match step {
        Step::Connect => Error::with_detail("session connect failed: ", text),
        Step::OpenMixer => Error::with_detail("mixer init failed: ", text),
        Step::StartHost => Error::with_detail("spirc start failed: ", text),
        Step::LaunchZeroconf => Error::with_detail("zeroconf launch failed: ", text),
        Step::LoadItem => Error::with_detail("failed to load audio item: ", text),
        Step::OpenFile => Error::with_detail("failed to open audio file: ", text),
        Step::Local => {
            assert(step_prefix(step) + text@ =~= text@);
            Error::from_reason(text)
        },
    }
}

/// A session that is connected.
#[derive(Debug)]
pub struct LibrespotSession {
    pub device_id: String,
}

impl SessionPlan {
    /// The session, once connecting it has succeeded or failed with the given text.
    pub fn finish(self, connected: Result<(), String>) -> (r: Result<LibrespotSession, Error>)
        ensures
            match connected {
                Ok(_) => r is Ok && r->Ok_0.device_id@ == self@.device_id,
                Err(text) => r is Err && r->Err_0@ == "session connect failed: "@ + text@,
            },
    {
        match connected {
            Ok(_) => Ok(LibrespotSession { device_id: self.device_id }),
            Err(text) => Err(step_failed(Step::Connect, text.as_str())),
        }
    }
}

impl LibrespotSession {
    /// Closing a session always succeeds; the connection ends when nobody holds the session.
    pub fn close(&self) -> (r: Result<(), Error>)
        ensures
            r is Ok,
    {
        Ok(())
    }
}

/// A session has a device identifier that is not blank, whatever name was asked for.
pub proof fn law_device_id_not_blank(device_name: Option<Seq<char>>)
    ensures
        !blank(device_id_for(device_name)),
{
    reveal_strlit("librespot");
    assert(!white_space("librespot"@[0]));
}

/// What stores credentials can be used to create a session, which logs in with the very credentials
/// that were stored.
pub proof fn law_stored_credentials_reused(
    json: Seq<char>,
    credentials: CredentialsView,
    device_name: Option<Seq<char>>,
    client_override: Option<Seq<char>>,
)
    requires
        stores(json, credentials),
    ensures
        session_from_stored(json, FileLookup::Missing, device_name, client_override) == session_with(
            Ok(credentials),
            device_name,
            client_override,
        ),
{
}

/// The same holds where the credentials were stored in a file whose path is given.
pub proof fn law_credentials_file_reused(
    path: Seq<char>,
    contents: String,
    credentials: CredentialsView,
    device_name: Option<Seq<char>>,
    client_override: Option<Seq<char>>,
)
    requires
        !blank(path),
        stores(contents@, credentials),
    ensures
        session_from_stored(path, FileLookup::Contents(contents), device_name, client_override)
            == session_with(Ok(credentials), device_name, client_override),
{
}

} // verus!
