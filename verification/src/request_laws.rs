//! What requests ask for and what they are refused for, argument by argument.

use vstd::prelude::*;
use vstd::utf8::encode_utf8;

use crate::connect::settings_for;
use crate::credentials::{
    json_view, parsed_credentials, parsed_view, stores, token_credentials, AuthType,
    CredentialsView, LoginCredentials,
};
use crate::download::{
    download_action, download_for, download_lines, download_request_view, download_scope,
    download_start_line, fetch_reason, track_number_for, track_number_view, DownloadAction,
    DownloadActionView, DownloadEvent, DownloadEventView, DownloadRequest, DownloadRequestView,
    DownloadTrackOpts, FetchFailure,
};
use crate::error::{failed, printed, Error};
use crate::formats::bitrate_for;
use crate::hosting::{
    exchanged_for, host_context, host_view, host_with, request_view, token_host_for,
    token_host_view, HostPlan, HostRequest, HostRequestView, TokenHost, TokenHostView,
};
use crate::login::{
    dir_name_of, login_result, login_view, result_view, token_login, zeroconf_for, zeroconf_view,
    CredentialsResult, LoginPlan, ZeroconfPlan,
};
use crate::session::{
    accepted, client_id_for, device_id_for, loaded, loaded_view, plan_view, session_for,
    session_from_stored, session_with, step_prefix, stored_form, unless_blank, FileLookup,
    SessionPlan, Step,
};
use crate::spotify::{item_view, number_view, SpotifyItem};
use crate::text::{blank, decimal, opt_view, trimmed};
use crate::tracks::{
    item_for, named_item_view, stream_context, stream_for, stream_request_view, StreamRequest,
    StreamRequestView, StreamTrackOpts,
};

verus! {

/// An optional text counts where it is not blank, and then as it is.
pub proof fn law_unless_blank(text: Seq<char>)
    ensures
        blank(text) ==> unless_blank(Some(text)) is None,
        !blank(text) ==> unless_blank(Some(text)) == Some(text),
        unless_blank(None) is None,
{
}

/// A device is called by the name that it was given, as it was given; `librespot` where that is
/// blank or absent.
pub proof fn law_device_id(name: Seq<char>)
    ensures
        !blank(name) ==> device_id_for(Some(name)) == name,
        blank(name) ==> device_id_for(Some(name)) == "librespot"@,
        device_id_for(None) == "librespot"@,
{
}

/// A client identifier that is asked for counts before one from the environment; a blank one does
/// not count.
pub proof fn law_client_id(asked: Seq<char>, found: Seq<char>, either: Option<Seq<char>>)
    ensures
        !blank(asked) ==> client_id_for(Some(asked), either) == Some(asked),
        blank(asked) && !blank(found) ==> client_id_for(Some(asked), Some(found)) == Some(found),
        !blank(found) ==> client_id_for(None, Some(found)) == Some(found),
        blank(found) ==> client_id_for(None, Some(found)) is None,
        blank(asked) && blank(found) ==> client_id_for(Some(asked), Some(found)) is None,
        blank(asked) ==> client_id_for(Some(asked), None) is None,
        client_id_for(None, None) is None,
{
}

/// An access token proves itself: its bytes are the proof, and there is no user name.
pub proof fn law_token_credentials(token: Seq<char>)
    ensures
        token_credentials(token).username is None,
        token_credentials(token).auth_type == AuthType::SpotifyToken,
        token_credentials(token).auth_data == encode_utf8(token),
{
}

/// A session for an access token: refused where the token is blank or absent, whatever else is
/// asked; else it logs in with the token without the white space round it, and stores nothing.
pub proof fn law_token_session(
    token: Seq<char>,
    client_id: Option<Seq<char>>,
    device_name: Option<Seq<char>>,
    client_override: Option<Seq<char>>,
)
    ensures
        ({
            let refusal = "access token is required; obtain a user token via PKCE/Web API"@;
            let r = session_for(Some(token), client_id, device_name, client_override);
            &&& blank(token) ==> r is Err && r->Err_0 == refusal
            &&& session_for(None, client_id, device_name, client_override) is Err
            &&& session_for(None, client_id, device_name, client_override)->Err_0 == refusal
            &&& !blank(token) ==> {
                &&& r is Ok
                &&& r->Ok_0.credentials.auth_data == encode_utf8(trimmed(token))
                &&& r->Ok_0.credentials.auth_type == AuthType::SpotifyToken
                &&& r->Ok_0.credentials.username is None
                &&& r->Ok_0.device_id == device_id_for(device_name)
                &&& r->Ok_0.client_id == client_id_for(client_id, client_override)
                &&& !r->Ok_0.store_credentials
            }
        }),
{
}

/// Stored credentials: the text itself where it is no path, else what the file holds; a file that
/// cannot be read is refused for the very reason, and text that is no credentials for what is wrong
/// with it.
pub proof fn law_stored_form(payload: Seq<char>, text: String)
    ensures
        stored_form(payload, FileLookup::Missing) == Ok::<Seq<char>, Seq<char>>(payload),
        stored_form(payload, FileLookup::Contents(text)) == Ok::<Seq<char>, Seq<char>>(text@),
        stored_form(payload, FileLookup::Unreadable(text)) == Err::<Seq<char>, Seq<char>>(text@),
        loaded(payload, FileLookup::Missing) == accepted(parsed_credentials(payload)),
        loaded(payload, FileLookup::Contents(text)) == accepted(parsed_credentials(text@)),
        loaded(payload, FileLookup::Unreadable(text)) is Err,
        loaded(payload, FileLookup::Unreadable(text))->Err_0 == text@,
{
}

/// Credentials that can be read are taken as they are; else the reason says what is wrong.
pub proof fn law_accepted(credentials: CredentialsView, reason: Seq<char>)
    ensures
        accepted(Ok(credentials)) is Ok,
        accepted(Ok(credentials))->Ok_0 == credentials,
        accepted(Err(reason)) is Err,
        accepted(Err(reason))->Err_0 == "invalid credentials json: "@ + reason,
{
}

/// A session for stored credentials: refused where the text is blank, or where the credentials are;
/// else it logs in with those credentials, and stores nothing.
pub proof fn law_stored_session(
    payload: Seq<char>,
    file: FileLookup,
    device_name: Option<Seq<char>>,
    client_override: Option<Seq<char>>,
)
    ensures
        ({
            let r = session_from_stored(payload, file, device_name, client_override);
            let credentials = loaded(payload, file);
            &&& blank(payload) ==> r is Err && r->Err_0 == "credentials payload is required"@
            &&& !blank(payload) && credentials is Err ==> r is Err && r->Err_0
                == credentials->Err_0
            &&& !blank(payload) && credentials is Ok ==> {
                &&& r is Ok
                &&& r->Ok_0.credentials == credentials->Ok_0
                &&& r->Ok_0.device_id == device_id_for(device_name)
                &&& r->Ok_0.client_id == unless_blank(client_override)
                &&& !r->Ok_0.store_credentials
            }
        }),
{
}

/// A session for credentials logs in with them, under its device's name.
pub proof fn law_session_with(
    credentials: CredentialsView,
    reason: Seq<char>,
    device_name: Option<Seq<char>>,
    client_override: Option<Seq<char>>,
)
    ensures
        ({
            let r = session_with(Ok(credentials), device_name, client_override);
            &&& r is Ok
            &&& r->Ok_0.credentials == credentials
            &&& r->Ok_0.device_id == device_id_for(device_name)
            &&& r->Ok_0.client_id == unless_blank(client_override)
            &&& !r->Ok_0.store_credentials
        }),
        session_with(Err(reason), device_name, client_override) is Err,
        session_with(Err(reason), device_name, client_override)->Err_0 == reason,
{
}

/// What precedes the text of a failure of each step.
pub proof fn law_step_prefixes()
    ensures
        step_prefix(Step::Connect) == "session connect failed: "@,
        step_prefix(Step::OpenMixer) == "mixer init failed: "@,
        step_prefix(Step::StartHost) == "spirc start failed: "@,
        step_prefix(Step::LaunchZeroconf) == "zeroconf launch failed: "@,
        step_prefix(Step::LoadItem) == "failed to load audio item: "@,
        step_prefix(Step::OpenFile) == "failed to open audio file: "@,
        step_prefix(Step::Local).len() == 0,
{
}

/// An error is printed with its reason, where it has one.
pub proof fn law_printed(reason: Seq<char>)
    ensures
        reason.len() > 0 ==> printed(reason) == "GenericFailure, "@ + reason,
        reason.len() == 0 ==> printed(reason) == "GenericFailure"@,
{
}

/// To have failed for a reason is to be an error that shows that very reason.
pub proof fn law_failed(r: Result<SessionPlan, Error>, reason: Seq<char>)
    ensures
        failed(r, reason) <==> (match r {
            Ok(_) => false,
            Err(e) => e.reason@ == reason,
        }),
{
}

/// A login with an access token uses the token as it is, under the device and the client that it is
/// given, and keeps the credentials that come of it.
pub proof fn law_token_login(
    token: Seq<char>,
    device_id: Option<Seq<char>>,
    client_id: Option<Seq<char>>,
)
    ensures
        ({
            let plan = token_login(token, device_id, client_id);
            &&& plan.credentials.auth_data == encode_utf8(token)
            &&& plan.credentials.auth_type == AuthType::SpotifyToken
            &&& plan.credentials.username is None
            &&& plan.device_id == device_id
            &&& plan.client_id == client_id
            &&& plan.store_credentials
        }),
{
}

/// A login gives the user's name, or an empty one, and the credentials as they are stored.
pub proof fn law_login_result(credentials: CredentialsView, json: Seq<char>, reason: Seq<char>)
    ensures
        ({
            let r = login_result(credentials, Ok(json));
            &&& r is Ok
            &&& r->Ok_0.1 == json
            &&& credentials.username is Some ==> r->Ok_0.0 == credentials.username->0
            &&& credentials.username is None ==> r->Ok_0.0.len() == 0
        }),
        login_result(credentials, Err(reason)) is Err,
        login_result(credentials, Err(reason))->Err_0 == reason,
{
}

/// A directory is named by its kind, the time and the process.
pub proof fn law_dir_name(prefix: Seq<char>, epoch_ms: u128, process: u32)
    ensures
        dir_name_of(prefix, epoch_ms, process) == prefix + "-"@ + decimal(epoch_ms as nat) + "-"@
            + decimal(process as nat),
{
}

/// A Zeroconf login is refused exactly where the device identifier is blank. Else it is announced
/// under the identifier without the white space round it, under the name given or `LoxAudio`, as a
/// speaker; and it waits as many milliseconds as it is told, or two minutes.
pub proof fn law_zeroconf(device_id: Seq<char>, name: Option<Seq<char>>, timeout_ms: Option<u32>)
    ensures
        ({
            let r = zeroconf_for(device_id, name, timeout_ms);
            &&& blank(device_id) ==> r is Err && r->Err_0 == "device_id is required"@
            &&& !blank(device_id) ==> {
                &&& r is Ok
                &&& r->Ok_0.device_id == trimmed(device_id)
                &&& name is Some ==> r->Ok_0.name == name->0
                &&& name is None ==> r->Ok_0.name == "LoxAudio"@
                &&& r->Ok_0.device_type == crate::connect::DeviceType::Speaker
                &&& timeout_ms is Some ==> r->Ok_0.wait_ms == timeout_ms->0
                &&& timeout_ms is None ==> r->Ok_0.wait_ms == 120000
            }
        }),
{
}

/// The longer the wait that is asked for, the longer a Zeroconf login waits, millisecond by
/// millisecond.
pub proof fn law_zeroconf_wait(
    device_id: Seq<char>,
    name: Option<Seq<char>>,
    one_ms: u32,
    other_ms: u32,
)
    requires
        !blank(device_id),
    ensures
        zeroconf_for(device_id, name, Some(one_ms))->Ok_0.wait_ms - zeroconf_for(
            device_id,
            name,
            Some(other_ms),
        )->Ok_0.wait_ms == one_ms - other_ms,
{
}

/// A host for credentials logs in with them, under the device and the name that were asked for.
pub proof fn law_host_with(
    credentials: CredentialsView,
    reason: Seq<char>,
    request: HostRequestView,
    client_override: Option<Seq<char>>,
)
    ensures
        ({
            let r = host_with(Ok(credentials), request, client_override);
            &&& r is Ok
            &&& r->Ok_0.credentials == credentials
            &&& r->Ok_0.device_id == request.device_id
            &&& r->Ok_0.client_id == unless_blank(client_override)
            &&& r->Ok_0.settings == settings_for(request.name)
        }),
        host_with(Err(reason), request, client_override) is Err,
        host_with(Err(reason), request, client_override)->Err_0 == reason,
{
}

/// All that a host says names its device and its session, and no track.
pub proof fn law_host_context(device_id: Seq<char>, session_id: Seq<char>)
    ensures
        host_context(device_id, session_id).device_id == Some(device_id),
        host_context(device_id, session_id).session_id == Some(session_id),
        host_context(device_id, session_id).track_id is None,
        host_context(device_id, session_id).uri is None,
{
}

/// A host for an access token: refused exactly where the token is blank; else the token is exchanged
/// as it is, for the device of the host, and a client identifier that is given goes to the
/// environment.
pub proof fn law_token_host(
    token: Seq<char>,
    client_id: Option<Seq<char>>,
    name: Seq<char>,
    device_id: Seq<char>,
    client_override: Option<Seq<char>>,
)
    ensures
        ({
            let r = token_host_for(token, client_id, name, device_id, client_override);
            &&& blank(token) ==> r is Err && r->Err_0 == "access token is required"@
            &&& !blank(token) ==> {
                &&& r is Ok
                &&& r->Ok_0.name == name
                &&& r->Ok_0.device_id == device_id
                &&& r->Ok_0.export_client_id == unless_blank(client_id)
                &&& r->Ok_0.login.credentials.auth_data == encode_utf8(token)
                &&& r->Ok_0.login.credentials.auth_type == AuthType::SpotifyToken
                &&& r->Ok_0.login.credentials.username is None
                &&& r->Ok_0.login.device_id == Some(device_id)
                &&& r->Ok_0.login.client_id == client_id_for(client_id, client_override)
                &&& r->Ok_0.login.store_credentials
            }
        }),
{
}

/// After the exchange the host is asked for with the credentials that came of it, under its own name
/// and device; a failure is told as a printed error.
pub proof fn law_exchanged(host: TokenHostView, json: Seq<char>, reason: Seq<char>)
    ensures
        ({
            let r = exchanged_for(host, Ok(json));
            &&& r is Ok
            &&& r->Ok_0.credentials_path == json
            &&& r->Ok_0.name == host.name
            &&& r->Ok_0.device_id == host.device_id
        }),
        exchanged_for(host, Err(reason)) is Err,
        exchanged_for(host, Err(reason))->Err_0 == printed(reason),
{
}

/// The item of a request: refused where there is no URI, or where it cannot be read.
pub proof fn law_item_for(uri: Seq<char>, id: Seq<char>, canonical: Seq<char>, reason: Seq<char>)
    ensures
        uri.len() == 0 ==> item_for(uri, Ok((id, canonical))) is Err && item_for(
            uri,
            Ok((id, canonical)),
        )->Err_0 == "uri is required"@,
        uri.len() == 0 ==> item_for(uri, Err(reason)) is Err && item_for(uri, Err(reason))->Err_0
            == "uri is required"@,
        uri.len() > 0 ==> item_for(uri, Err(reason)) is Err && item_for(uri, Err(reason))->Err_0
            == "invalid spotify uri: "@ + reason,
        uri.len() > 0 ==> item_for(uri, Ok((id, canonical))) is Ok && item_for(
            uri,
            Ok((id, canonical)),
        )->Ok_0.id == id && item_for(uri, Ok((id, canonical)))->Ok_0.uri == canonical,
{
}

/// A stream is refused exactly where its item is. Else it starts where it is told, or at the
/// beginning; it plays at the bitrate for what is asked; and the player's events are taken in unless
/// the caller says that they are not to be.
pub proof fn law_stream_request(
    device_id: Seq<char>,
    opts: StreamTrackOpts,
    item: Result<(Seq<char>, Seq<char>), Seq<char>>,
)
    ensures
        ({
            let r = stream_for(device_id, opts, item);
            let wanted = item_for(opts.uri@, item);
            &&& wanted is Err ==> r is Err && r->Err_0 == wanted->Err_0
            &&& wanted is Ok ==> {
                &&& r is Ok
                &&& r->Ok_0.uri == opts.uri@
                &&& r->Ok_0.item == wanted->Ok_0
                &&& r->Ok_0.device_id == device_id
                &&& opts.start_position_ms is Some ==> r->Ok_0.start_position_ms
                    == opts.start_position_ms->0
                &&& opts.start_position_ms is None ==> r->Ok_0.start_position_ms == 0
                &&& r->Ok_0.bitrate == bitrate_for(opts.bitrate)
                &&& !r->Ok_0.emit_events <==> opts.emit_events == Some(false)
            }
        }),
{
}

/// All that a stream says names its device and its session, the URI that was asked for and the
/// identifier of its item.
pub proof fn law_stream_context(request: StreamRequestView, session_id: Seq<char>)
    ensures
        stream_context(request, session_id).device_id == Some(request.device_id),
        stream_context(request, session_id).session_id == Some(session_id),
        stream_context(request, session_id).track_id == Some(request.item.id),
        stream_context(request, session_id).uri == Some(request.uri),
{
}

/// A download is refused exactly where its item is; else it asks for that item at the given bitrate.
pub proof fn law_download_request(
    device_id: Seq<char>,
    opts: DownloadTrackOpts,
    item: Result<(Seq<char>, Seq<char>), Seq<char>>,
)
    ensures
        ({
            let r = download_for(device_id, opts, item);
            let wanted = item_for(opts.uri@, item);
            &&& wanted is Err ==> r is Err && r->Err_0 == wanted->Err_0
            &&& wanted is Ok ==> {
                &&& r is Ok
                &&& r->Ok_0.uri == opts.uri@
                &&& r->Ok_0.item == wanted->Ok_0
                &&& r->Ok_0.device_id == device_id
                &&& r->Ok_0.bitrate == opts.bitrate
            }
        }),
{
}

/// The number of a track is the one that was read, or the reason why there is none.
pub proof fn law_track_number(number: u128, reason: Seq<char>)
    ensures
        track_number_for(Ok(number)) is Ok,
        track_number_for(Ok(number))->Ok_0 == number,
        track_number_for(Err(reason)) is Err,
        track_number_for(Err(reason))->Err_0 == "invalid spotify id: "@ + reason,
{
}

/// The start of a download is logged with its URI, device and session, where somebody listens.
pub proof fn law_download_start(request: DownloadRequestView, session_id: Seq<char>)
    ensures
        download_start_line(request, session_id, false).len() == 0,
        download_start_line(request, session_id, true).len() == 1,
        ({
            let line = download_start_line(request, session_id, true)[0];
            &&& line.level == "info"@
            &&& line.message == "download_track start uri="@ + request.uri
            &&& line.scope == Some("download_track"@)
            &&& line.device_id == Some(request.device_id)
            &&& line.session_id == Some(session_id)
        }),
        download_scope() == "download_track"@,
{
}

/// Why a file or its key could not be fetched is told with the text of the error.
pub proof fn law_fetch_reason(text: String)
    ensures
        fetch_reason(FetchFailure::NoFile(text)) == "failed to open audio file: "@ + text@,
        fetch_reason(FetchFailure::NoKey(text)) == "audio key unavailable: "@ + text@,
{
}

/// What a download does next: it reads unless it is stopped, queues all that it read, goes on once
/// that is taken, and ends at the end of the file, at a failure and when nobody takes it.
pub proof fn law_download_steps(bytes: Seq<u8>, text: Seq<char>)
    ensures
        download_action(DownloadEventView::Round { stopped: true }) == DownloadActionView::End,
        download_action(DownloadEventView::Round { stopped: false }) == DownloadActionView::Read,
        bytes.len() > 0 ==> download_action(DownloadEventView::Read { bytes }) == (
        DownloadActionView::Queue { bytes }),
        bytes.len() == 0 ==> download_action(DownloadEventView::Read { bytes })
            == DownloadActionView::End,
        download_action(DownloadEventView::ReadFailed { text }) == DownloadActionView::End,
        download_action(DownloadEventView::Queued { accepted: true })
            == DownloadActionView::NextRound,
        download_action(DownloadEventView::Queued { accepted: false }) == DownloadActionView::End,
{
}

/// A failure to read is logged as an error with its text, about no device and no session; nothing
/// else that happens to a download is logged.
pub proof fn law_read_failure_logged(event: DownloadEventView)
    ensures
        download_lines(event, false).len() == 0,
        !(event is ReadFailed) ==> download_lines(event, true).len() == 0,
        event is ReadFailed ==> {
            let lines = download_lines(event, true);
            &&& lines.len() == 1
            &&& lines[0].level == "error"@
            &&& lines[0].message == "read error: "@ + event->text
            &&& lines[0].scope == Some("download_track"@)
            &&& lines[0].device_id is None
            &&& lines[0].session_id is None
        },
{
}

/// What is stated of a plan for a session is stated of each of its fields.
pub proof fn law_session_plan_fields(plan: SessionPlan, credentials: LoginCredentials)
    ensures
        plan@.credentials == plan.credentials@,
        plan@.device_id == plan.device_id@,
        plan@.client_id == opt_view(plan.client_id),
        plan@.store_credentials == plan.store_credentials,
        credentials@.username == opt_view(credentials.username),
        credentials@.auth_type == credentials.auth_type,
        credentials@.auth_data == credentials.auth_data@,
{
}

/// What is stated of a plan for a login is stated of each of its fields.
pub proof fn law_login_plan_fields(plan: LoginPlan, zeroconf: ZeroconfPlan)
    ensures
        plan@.credentials == plan.credentials@,
        plan@.device_id == opt_view(plan.device_id),
        plan@.client_id == opt_view(plan.client_id),
        plan@.store_credentials == plan.store_credentials,
        zeroconf@.device_id == zeroconf.device_id@,
        zeroconf@.name == zeroconf.name@,
        zeroconf@.device_type == zeroconf.device_type,
        zeroconf@.wait_ms == zeroconf.wait_ms,
{
}

/// What is stated of a request for a host, of a plan for one and of one that waits for its
/// credentials is stated of each of their fields.
pub proof fn law_host_fields(request: HostRequest, plan: HostPlan, waiting: TokenHost)
    ensures
        request@.credentials_path == request.credentials_path@,
        request@.name == request.name@,
        request@.device_id == request.device_id@,
        plan@.credentials == plan.credentials@,
        plan@.device_id == plan.device_id@,
        plan@.client_id == opt_view(plan.client_id),
        plan@.settings == plan.settings@,
        waiting@.export_client_id == opt_view(waiting.export_client_id),
        waiting@.login == waiting.login@,
        waiting@.name == waiting.name@,
        waiting@.device_id == waiting.device_id@,
{
}

/// What is stated of a request for a track is stated of each of its fields.
pub proof fn law_track_request_fields(stream: StreamRequest, download: DownloadRequest)
    ensures
        stream@.uri == stream.uri@,
        stream@.item == stream.item@,
        stream@.device_id == stream.device_id@,
        stream@.start_position_ms == stream.start_position_ms,
        stream@.bitrate == stream.bitrate,
        stream@.emit_events == stream.emit_events,
        download@.uri == download.uri@,
        download@.item == download.item@,
        download@.device_id == download.device_id@,
        download@.bitrate == download.bitrate,
{
}

/// What is stated of an event of a download and of an action is stated of what they carry.
pub proof fn law_download_event_fields(event: DownloadEvent, action: DownloadAction)
    ensures
        match event {
            DownloadEvent::Round { stopped } => event@ is Round && event@->stopped == stopped,
            DownloadEvent::Read { bytes } => event@ is Read && event@->bytes == bytes@,
            DownloadEvent::ReadFailed { text } => event@ is ReadFailed && event@->text == text@,
            DownloadEvent::Queued { accepted } => event@ is Queued && event@->accepted == accepted,
        },
        match action {
            DownloadAction::Read => action@ is Read,
            DownloadAction::Queue { bytes } => action@ is Queue && action@->bytes == bytes@,
            DownloadAction::NextRound => action@ is NextRound,
            DownloadAction::End => action@ is End,
        },
{
}

/// The outcome of a request for a session or a login is viewed as what it holds.
pub proof fn law_session_outcomes(
    plan: Result<SessionPlan, Error>,
    credentials: Result<LoginCredentials, Error>,
    login: Result<LoginPlan, Error>,
    result: Result<CredentialsResult, Error>,
    zeroconf: Result<ZeroconfPlan, Error>,
)
    ensures
        match plan {
            Ok(p) => plan_view(plan) is Ok && plan_view(plan)->Ok_0 == p@,
            Err(e) => plan_view(plan) is Err && plan_view(plan)->Err_0 == e.reason@,
        },
        match credentials {
            Ok(c) => loaded_view(credentials) is Ok && loaded_view(credentials)->Ok_0 == c@,
            Err(e) => loaded_view(credentials) is Err && loaded_view(credentials)->Err_0
                == e.reason@,
        },
        match login {
            Ok(p) => login_view(login) is Ok && login_view(login)->Ok_0 == p@,
            Err(e) => login_view(login) is Err && login_view(login)->Err_0 == e.reason@,
        },
        match result {
            Ok(c) => result_view(result) is Ok && result_view(result)->Ok_0 == (
                c.username@,
                c.credentials_json@,
            ),
            Err(e) => result_view(result) is Err && result_view(result)->Err_0 == e.reason@,
        },
        match zeroconf {
            Ok(p) => zeroconf_view(zeroconf) is Ok && zeroconf_view(zeroconf)->Ok_0 == p@,
            Err(e) => zeroconf_view(zeroconf) is Err && zeroconf_view(zeroconf)->Err_0 == e.reason@,
        },
{
}

/// The outcome of a request for a host is viewed as what it holds.
pub proof fn law_host_outcomes(
    request: Result<HostRequest, Error>,
    plan: Result<HostPlan, Error>,
    waiting: Result<TokenHost, Error>,
)
    ensures
        match request {
            Ok(p) => request_view(request) is Ok && request_view(request)->Ok_0 == p@,
            Err(e) => request_view(request) is Err && request_view(request)->Err_0 == e.reason@,
        },
        match plan {
            Ok(p) => host_view(plan) is Ok && host_view(plan)->Ok_0 == p@,
            Err(e) => host_view(plan) is Err && host_view(plan)->Err_0 == e.reason@,
        },
        match waiting {
            Ok(p) => token_host_view(waiting) is Ok && token_host_view(waiting)->Ok_0 == p@,
            Err(e) => token_host_view(waiting) is Err && token_host_view(waiting)->Err_0
                == e.reason@,
        },
{
}

/// The outcome of a request for a track is viewed as what it holds.
pub proof fn law_track_outcomes(
    item: Result<SpotifyItem, Error>,
    stream: Result<StreamRequest, Error>,
    download: Result<DownloadRequest, Error>,
    number: Result<u128, Error>,
)
    ensures
        match item {
            Ok(p) => named_item_view(item) is Ok && named_item_view(item)->Ok_0 == p@,
            Err(e) => named_item_view(item) is Err && named_item_view(item)->Err_0 == e.reason@,
        },
        match stream {
            Ok(p) => stream_request_view(stream) is Ok && stream_request_view(stream)->Ok_0 == p@,
            Err(e) => stream_request_view(stream) is Err && stream_request_view(stream)->Err_0
                == e.reason@,
        },
        match download {
            Ok(p) => download_request_view(download) is Ok && download_request_view(download)->Ok_0
                == p@,
            Err(e) => download_request_view(download) is Err && download_request_view(
                download,
            )->Err_0 == e.reason@,
        },
        match number {
            Ok(n) => track_number_view(number) is Ok && track_number_view(number)->Ok_0 == n,
            Err(e) => track_number_view(number) is Err && track_number_view(number)->Err_0
                == e.reason@,
        },
{
}

/// What an outside call gave is viewed as what it holds.
pub proof fn law_outside_outcomes(
    parsed: Result<LoginCredentials, String>,
    json: Result<String, String>,
    item: Result<SpotifyItem, String>,
    number: Result<u128, String>,
)
    ensures
        match parsed {
            Ok(c) => parsed_view(parsed) is Ok && parsed_view(parsed)->Ok_0 == c@,
            Err(text) => parsed_view(parsed) is Err && parsed_view(parsed)->Err_0 == text@,
        },
        match json {
            Ok(text) => json_view(json) is Ok && json_view(json)->Ok_0 == text@,
            Err(text) => json_view(json) is Err && json_view(json)->Err_0 == text@,
        },
        match item {
            Ok(i) => item_view(item) is Ok && item_view(item)->Ok_0 == (i.id@, i.uri@),
            Err(text) => item_view(item) is Err && item_view(item)->Err_0 == text@,
        },
        match number {
            Ok(n) => number_view(number) is Ok && number_view(number)->Ok_0 == n,
            Err(text) => number_view(number) is Err && number_view(number)->Err_0 == text@,
        },
{
}

/// To store credentials is to be a text that is not blank and reads back as them.
pub proof fn law_stores(json: Seq<char>, credentials: CredentialsView)
    requires
        stores(json, credentials),
    ensures
        !blank(json),
        parsed_credentials(json) == Ok::<CredentialsView, Seq<char>>(credentials),
{
}

} // verus!
