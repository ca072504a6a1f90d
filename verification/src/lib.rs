//! The rules behind a set of Node.js bindings for librespot (Spotify Connect).
//!
//! What this library decides, it decides on plain values: which requests are refused and why, what
//! a session, a stream, a download or a connect host is set up with, what the tasks of a stream
//! make of log lines, player events and audio, and what callbacks are told. The connection to
//! Spotify, the player, the clock and the callbacks themselves belong to the caller, who hands in
//! what happened and carries out what comes back.

pub mod connect;
pub mod credentials;
pub mod download;
pub mod error;
pub mod event_laws;
pub mod events;
pub mod formats;
pub mod handles;
pub mod health;
pub mod hosting;
pub mod logging;
pub mod login;
pub mod output_laws;
pub mod playback;
pub mod request_laws;
pub mod session;
pub mod session_ids;
pub mod sink;
pub mod spotify;
pub mod stream;
pub mod stream_laws;
pub mod text;
pub mod timing;
pub mod tracks;

pub use download::DownloadTrackOpts;
pub use error::Error;
pub use events::{ConnectEvent, LogEvent};
pub use handles::{ConnectHandle, DownloadHandle, StreamHandle};
pub use hosting::{
    start_connect_device, start_connect_device_with_credentials, start_connect_device_with_token,
};
pub use logging::set_log_level;
pub use login::{login_with_access_token, start_zeroconf_login, CredentialsResult};
pub use session::{
    create_session, create_session_with_credentials, CreateSessionOpts, LibrespotSession,
};
pub use tracks::StreamTrackOpts;
