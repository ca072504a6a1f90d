//! Login credentials and their stored form.

use librespot_core::authentication::Credentials;
use librespot_protocol::authentication::AuthenticationType;
use vstd::prelude::*;
use vstd::utf8::encode_utf8;

use crate::text::{blank, opt_view};

verus! {

/// How credentials prove who their owner is.
#[derive(Clone, Copy, Debug, PartialEq, Eq, Structural)]
pub enum AuthType {
    UserPass,
    StoredSpotifyCredentials,
    StoredFacebookCredentials,
    SpotifyToken,
    FacebookToken,
}

/// Credentials with which a session logs in.
#[derive(Debug)]
pub struct LoginCredentials {
    pub username: Option<String>,
    pub auth_type: AuthType,
    pub auth_data: Vec<u8>,
}

/// [`LoginCredentials`] as mathematical values.
#[verifier::ext_equal]
pub struct CredentialsView {
    pub username: Option<Seq<char>>,
    pub auth_type: AuthType,
    pub auth_data: Seq<u8>,
}

impl View for LoginCredentials {
    type V = CredentialsView;

    open spec fn view(&self) -> CredentialsView {
        CredentialsView {
            username: opt_view(self.username),
            auth_type: self.auth_type,
            auth_data: self.auth_data@,
        }
    }
}

/// The credentials that an access token stands for.
pub open spec fn token_credentials(token: Seq<char>) -> CredentialsView {
    CredentialsView {
        username: None,
        auth_type: AuthType::SpotifyToken,
        auth_data: encode_utf8(token),
    }
}

/// `Credentials::with_access_token`: no user name, and the token's bytes as the proof.
#[verifier::external_body]
pub(crate) fn with_access_token(token: String) -> (r: LoginCredentials)
    ensures
        r@ == token_credentials(token@),
{
    let c = Credentials::with_access_token(token);
    let auth_type = match c.auth_type {
        AuthenticationType::AUTHENTICATION_USER_PASS => AuthType::UserPass,
        AuthenticationType::AUTHENTICATION_STORED_SPOTIFY_CREDENTIALS => AuthType::StoredSpotifyCredentials,
        AuthenticationType::AUTHENTICATION_STORED_FACEBOOK_CREDENTIALS => AuthType::StoredFacebookCredentials,
        AuthenticationType::AUTHENTICATION_SPOTIFY_TOKEN => AuthType::SpotifyToken,
        AuthenticationType::AUTHENTICATION_FACEBOOK_TOKEN => AuthType::FacebookToken,
    };
    LoginCredentials { username: c.username, auth_type, auth_data: c.auth_data }
}

/// The result of reading stored credentials, as mathematical values.
pub open spec fn parsed_view(r: Result<LoginCredentials, String>) -> Result<
    CredentialsView,
    Seq<char>,
> {
    match r {
        Ok(c) => Ok(c@),
        Err(text) => Err(text@),
    }
}

/// What `serde_json::from_str` reads out of a stored form: credentials, or the printed error.
pub uninterp spec fn parsed_credentials(json: Seq<char>) -> Result<CredentialsView, Seq<char>>;

/// `serde_json::from_str`, reading `Credentials`. The result is named.
#[verifier::external_body]
pub(crate) fn parse_credentials(json: &str) -> (r: Result<LoginCredentials, String>)
    ensures
        parsed_view(r) == parsed_credentials(json@),
{
    let c = serde_json::from_str::<Credentials>(json).map_err(|e| e.to_string())?;
    let auth_type = match c.auth_type {
        AuthenticationType::AUTHENTICATION_USER_PASS => AuthType::UserPass,
        AuthenticationType::AUTHENTICATION_STORED_SPOTIFY_CREDENTIALS => AuthType::StoredSpotifyCredentials,
        AuthenticationType::AUTHENTICATION_STORED_FACEBOOK_CREDENTIALS => AuthType::StoredFacebookCredentials,
        AuthenticationType::AUTHENTICATION_SPOTIFY_TOKEN => AuthType::SpotifyToken,
        AuthenticationType::AUTHENTICATION_FACEBOOK_TOKEN => AuthType::FacebookToken,
    };
    Ok(LoginCredentials { username: c.username, auth_type, auth_data: c.auth_data })
}

/// The stored form `json` is not blank, and it reads back as the credentials `c`.
pub open spec fn stores(json: Seq<char>, c: CredentialsView) -> bool {
    &&& !blank(json)
    &&& parsed_credentials(json) is Ok
    &&& parsed_credentials(json)->Ok_0 == c
}

/// The result of writing credentials, with texts as character sequences.
pub open spec fn json_view(r: Result<String, String>) -> Result<Seq<char>, Seq<char>> {
    match r {
        Ok(json) => Ok(json@),
        Err(text) => Err(text@),
    }
}

/// What `serde_json::to_string` writes for credentials, or the printed error.
pub uninterp spec fn credentials_json(c: CredentialsView) -> Result<Seq<char>, Seq<char>>;

/// What `serde_json::to_string_pretty` writes for credentials, or the printed error.
pub uninterp spec fn pretty_credentials_json(c: CredentialsView) -> Result<Seq<char>, Seq<char>>;

/// `serde_json::to_string`, on `Credentials`. The result is named; beside the name stands that
/// writing these fields into memory succeeds, and that what is written is not blank and reads back
/// as the same credentials.
#[verifier::external_body]
pub(crate) fn write_json(c: &LoginCredentials) -> (r: Result<String, String>)
    ensures
        json_view(r) == credentials_json(c@),
        r is Ok,
        stores(r->Ok_0@, c@),
{
    let auth_type = match c.auth_type {
        AuthType::UserPass => AuthenticationType::AUTHENTICATION_USER_PASS,
        AuthType::StoredSpotifyCredentials => AuthenticationType::AUTHENTICATION_STORED_SPOTIFY_CREDENTIALS,
        AuthType::StoredFacebookCredentials => AuthenticationType::AUTHENTICATION_STORED_FACEBOOK_CREDENTIALS,
        AuthType::SpotifyToken => AuthenticationType::AUTHENTICATION_SPOTIFY_TOKEN,
        AuthType::FacebookToken => AuthenticationType::AUTHENTICATION_FACEBOOK_TOKEN,
    };
    let (username, auth_data) = (c.username.clone(), c.auth_data.clone());
    let plain = Credentials { username, auth_type, auth_data };
    serde_json::to_string(&plain).map_err(|e| e.to_string())
}

/// `serde_json::to_string_pretty`, on `Credentials`. The result is named; beside the name stands
/// that writing these fields into memory succeeds, and that what is written is not blank and reads
/// back as the same credentials.
#[verifier::external_body]
pub(crate) fn write_pretty_json(c: &LoginCredentials) -> (r: Result<String, String>)
    ensures
        json_view(r) == pretty_credentials_json(c@),
        r is Ok,
        stores(r->Ok_0@, c@),
{
    let auth_type = match c.auth_type {
        AuthType::UserPass => AuthenticationType::AUTHENTICATION_USER_PASS,
        AuthType::StoredSpotifyCredentials => AuthenticationType::AUTHENTICATION_STORED_SPOTIFY_CREDENTIALS,
        AuthType::StoredFacebookCredentials => AuthenticationType::AUTHENTICATION_STORED_FACEBOOK_CREDENTIALS,
        AuthType::SpotifyToken => AuthenticationType::AUTHENTICATION_SPOTIFY_TOKEN,
        AuthType::FacebookToken => AuthenticationType::AUTHENTICATION_FACEBOOK_TOKEN,
    };
    let (username, auth_data) = (c.username.clone(), c.auth_data.clone());
    let plain = Credentials { username, auth_type, auth_data };
    serde_json::to_string_pretty(&plain).map_err(|e| e.to_string())
}

} // verus!
