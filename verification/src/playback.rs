//! Player events and the payloads that they turn into.

use vstd::prelude::*;

use crate::events::{
    plain_event, ConnectEvent, ConnectEventView, EventContext, EventContextView, LogEvent,
    LogEventView,
};
use crate::events::log_views;
use crate::logging::{log_line, push_log};
use crate::spotify::{SpotifyItem, SpotifyItemView};
use crate::text::{clone_opt, concat};

verus! {

/// What a player reports.
#[derive(Debug)]
pub enum PlayerEvent {
    Playing { track: SpotifyItem, position_ms: u32 },
    Paused { track: SpotifyItem, position_ms: u32 },
    Loading { track: SpotifyItem, position_ms: u32 },
    Stopped { track: SpotifyItem },
    EndOfTrack { track: SpotifyItem },
    Unavailable { track: SpotifyItem },
    VolumeChanged { volume: u16 },
    PositionCorrection { track: SpotifyItem, position_ms: u32 },
    Preloading,
    TimeToPreloadNextTrack,
    PlayRequestIdChanged,
    Other,
}

/// A [`PlayerEvent`] with its texts as character sequences.
pub enum PlayerEventView {
    Playing { track: SpotifyItemView, position_ms: u32 },
    Paused { track: SpotifyItemView, position_ms: u32 },
    Loading { track: SpotifyItemView, position_ms: u32 },
    Stopped { track: SpotifyItemView },
    EndOfTrack { track: SpotifyItemView },
    Unavailable { track: SpotifyItemView },
    VolumeChanged { volume: u16 },
    PositionCorrection { track: SpotifyItemView, position_ms: u32 },
    Preloading,
    TimeToPreloadNextTrack,
    PlayRequestIdChanged,
    Other,
}

impl View for PlayerEvent {
    type V = PlayerEventView;

    open spec fn view(&self) -> PlayerEventView {
        match *self {
            PlayerEvent::Playing { track, position_ms } => PlayerEventView::Playing {
                track: track@,
                position_ms,
            },
            PlayerEvent::Paused { track, position_ms } => PlayerEventView::Paused {
                track: track@,
                position_ms,
            },
            PlayerEvent::Loading { track, position_ms } => PlayerEventView::Loading {
                track: track@,
                position_ms,
            },
            PlayerEvent::Stopped { track } => PlayerEventView::Stopped { track: track@ },
            PlayerEvent::EndOfTrack { track } => PlayerEventView::EndOfTrack { track: track@ },
            PlayerEvent::Unavailable { track } => PlayerEventView::Unavailable { track: track@ },
            PlayerEvent::VolumeChanged { volume } => PlayerEventView::VolumeChanged { volume },
            PlayerEvent::PositionCorrection { track, position_ms } => {
                PlayerEventView::PositionCorrection { track: track@, position_ms }
            },
            PlayerEvent::Preloading => PlayerEventView::Preloading,
            PlayerEvent::TimeToPreloadNextTrack => PlayerEventView::TimeToPreloadNextTrack,
            PlayerEvent::PlayRequestIdChanged => PlayerEventView::PlayRequestIdChanged,
            PlayerEvent::Other => PlayerEventView::Other,
        }
    }
}

/// The name under which log lines speak of a player event.
pub open spec fn event_name_of(event: PlayerEventView) -> Seq<char> {
    match event {
        PlayerEventView::Playing { .. } => "playing"@,
        PlayerEventView::Paused { .. } => "paused"@,
        PlayerEventView::Loading { .. } => "loading"@,
        PlayerEventView::Stopped { .. } => "stopped"@,
        PlayerEventView::EndOfTrack { .. } => "end_of_track"@,
        PlayerEventView::Unavailable { .. } => "unavailable"@,
        PlayerEventView::Preloading => "preloading"@,
        PlayerEventView::TimeToPreloadNextTrack => "time_to_preload"@,
        PlayerEventView::VolumeChanged { .. } => "volume"@,
        PlayerEventView::PositionCorrection { .. } => "position_correction"@,
        PlayerEventView::PlayRequestIdChanged => "play_request_id"@,
        PlayerEventView::Other => "other"@,
    }
}

/// The name under which log lines speak of a player event.
pub fn event_name(event: &PlayerEvent) -> (name: &'static str)
    ensures
        name@ == event_name_of(event@),
{
    match event {
        PlayerEvent::Playing { .. } => "playing",
        PlayerEvent::Paused { .. } => "paused",
        PlayerEvent::Loading { .. } => "loading",
        PlayerEvent::Stopped { .. } => "stopped",
        PlayerEvent::EndOfTrack { .. } => "end_of_track",
        PlayerEvent::Unavailable { .. } => "unavailable",
        PlayerEvent::Preloading => "preloading",
        PlayerEvent::TimeToPreloadNextTrack => "time_to_preload",
        PlayerEvent::VolumeChanged { .. } => "volume",
        PlayerEvent::PositionCorrection { .. } => "position_correction",
        PlayerEvent::PlayRequestIdChanged => "play_request_id",
        PlayerEvent::Other => "other",
    }
}

/// What has been logged of a player's events.
#[derive(Clone, Copy, Debug, PartialEq, Eq, Structural)]
pub struct PlayerTrace {
    pub first_event_logged: bool,
    pub event_count: u32,
}

/// How many player events are logged one by one.
pub const LOGGED_EVENTS: u32 = 5;

/// The lines that log the next player event, called `name`.
pub open spec fn trace_lines(
    trace: PlayerTrace,
    listening: bool,
    scope: Seq<char>,
    ctx: EventContextView,
    name: Seq<char>,
) -> Seq<LogEventView> {
    (if trace.first_event_logged {
        Seq::empty()
    } else {
        log_line(listening, "debug"@, "first player event: "@ + name, scope, ctx)
    }) + (if trace.event_count < LOGGED_EVENTS {
        log_line(listening, "debug"@, "player event "@ + name, scope, ctx)
    } else {
        Seq::empty()
    })
}

impl PlayerTrace {
    pub fn new() -> (trace: PlayerTrace)
        ensures
            !trace.first_event_logged,
            trace.event_count == 0,
    {
        PlayerTrace { first_event_logged: false, event_count: 0 }
    }

    /// Counts a player event and logs it.
    pub(crate) fn record(
        &mut self,
        logs: &mut Vec<LogEvent>,
        listening: bool,
        scope: &str,
        ctx: &EventContext,
        name: &str,
    )
        requires
            old(self).event_count < u32::MAX,
        ensures
            final(self).first_event_logged,
            final(self).event_count == old(self).event_count + 1,
            log_views(final(logs)@) == log_views(old(logs)@) + trace_lines(
                *old(self),
                listening,
                scope@,
                ctx@,
                name@,
            ),
    {
        let ghost before = log_views(logs@);
        let ghost trace = *self;
        if !self.first_event_logged {
            self.first_event_logged = true;
            let message = concat("first player event: ", name);
            push_log(logs, listening, "debug", message.as_str(), scope, ctx);
        }
        self.event_count = self.event_count + 1;
        if self.event_count <= LOGGED_EVENTS {
            let message = concat("player event ", name);
            push_log(logs, listening, "debug", message.as_str(), scope, ctx);
        }
        assert(log_views(logs@) =~= before + trace_lines(trace, listening, scope@, ctx@, name@));
    }
}

/// The context of an event about `track`.
pub open spec fn about(ctx: EventContextView, track: SpotifyItemView) -> EventContextView {
    EventContextView { track_id: Some(track.id), uri: Some(track.uri), ..ctx }
}

/// The context of an event about no track.
pub open spec fn about_nothing(ctx: EventContextView) -> EventContextView {
    EventContextView { track_id: None, uri: None, ..ctx }
}

pub(crate) fn context_about(ctx: &EventContext, track: &SpotifyItem) -> (r: EventContext)
    ensures
        r@ == about(ctx@, track@),
{
    EventContext {
        device_id: clone_opt(&ctx.device_id),
        session_id: clone_opt(&ctx.session_id),
        track_id: Some(track.id.clone()),
        uri: Some(track.uri.clone()),
    }
}

fn context_about_nothing(ctx: &EventContext) -> (r: EventContext)
    ensures
        r@ == about_nothing(ctx@),
{
    EventContext {
        device_id: clone_opt(&ctx.device_id),
        session_id: clone_opt(&ctx.session_id),
        track_id: None,
        uri: None,
    }
}

/// What is remembered of the playback so far.
#[derive(Clone, Copy, Debug, PartialEq, Eq, Structural)]
pub struct PlaybackMemory {
    pub last_position_ms: Option<u32>,
    pub last_duration_ms: Option<u32>,
    pub saw_playing: bool,
}

impl PlaybackMemory {
    pub fn new() -> (memory: PlaybackMemory)
        ensures
            memory == (PlaybackMemory {
                last_position_ms: None,
                last_duration_ms: None,
                saw_playing: false,
            }),
    {
        PlaybackMemory { last_position_ms: None, last_duration_ms: None, saw_playing: false }
    }
}

/// The end of a track comes too early for a host to pass it on: nothing has played yet, or no
/// duration has been learnt from the catalogue.
pub open spec fn early_end(memory: PlaybackMemory, event: PlayerEventView) -> bool {
    event is EndOfTrack && (!memory.saw_playing || memory.last_duration_ms is None)
}

/// The payload for a player event; none for an event that callbacks do not receive. An end of track
/// is treated as a host treats it.
pub open spec fn player_payload(
    memory: PlaybackMemory,
    ctx: EventContextView,
    event: PlayerEventView,
) -> Option<ConnectEventView> {
    match event {
        PlayerEventView::Playing { track, position_ms } => Some(
            ConnectEventView {
                position_ms: Some(position_ms),
                ..plain_event("playing"@, about(ctx, track))
            },
        ),
        PlayerEventView::Paused { track, position_ms } => Some(
            ConnectEventView {
                position_ms: Some(position_ms),
                ..plain_event("paused"@, about(ctx, track))
            },
        ),
        PlayerEventView::Loading { track, position_ms } => Some(
            ConnectEventView {
                position_ms: Some(position_ms),
                ..plain_event("loading"@, about(ctx, track))
            },
        ),
        PlayerEventView::PositionCorrection { track, position_ms } => Some(
            ConnectEventView {
                position_ms: Some(position_ms),
                ..plain_event("position_correction"@, about(ctx, track))
            },
        ),
        PlayerEventView::Stopped { track } => Some(plain_event("stopped"@, about(ctx, track))),
        PlayerEventView::Unavailable { track } => Some(
            plain_event("unavailable"@, about(ctx, track)),
        ),
        PlayerEventView::EndOfTrack { track } => if early_end(memory, event) {
            None
        } else {
            Some(
                ConnectEventView {
                    position_ms: memory.last_position_ms,
                    duration_ms: memory.last_duration_ms,
                    ..plain_event("end_of_track"@, about(ctx, track))
                },
            )
        },
        PlayerEventView::VolumeChanged { volume } => Some(
            ConnectEventView {
                volume: Some(volume),
                ..plain_event("volume"@, about_nothing(ctx))
            },
        ),
        _ => None,
    }
}

/// A payload, where there is one.
pub open spec fn payload_view(payload: Option<ConnectEvent>) -> Option<ConnectEventView> {
    match payload {
        Some(p) => Some(p@),
        None => None,
    }
}

/// The payload for a player event; none for an event that callbacks do not receive. An end of track
/// is treated as a host treats it.
pub fn payload_for(memory: &PlaybackMemory, ctx: &EventContext, event: &PlayerEvent) -> (payload:
    Option<ConnectEvent>)
    ensures
        payload_view(payload) == player_payload(*memory, ctx@, event@),
{
    match event {
        PlayerEvent::Playing { track, position_ms } => Some(
            ConnectEvent {
                position_ms: Some(*position_ms),
                ..ConnectEvent::plain("playing", &context_about(ctx, track))
            },
        ),
        PlayerEvent::Paused { track, position_ms } => Some(
            ConnectEvent {
                position_ms: Some(*position_ms),
                ..ConnectEvent::plain("paused", &context_about(ctx, track))
            },
        ),
        PlayerEvent::Loading { track, position_ms } => Some(
            ConnectEvent {
                position_ms: Some(*position_ms),
                ..ConnectEvent::plain("loading", &context_about(ctx, track))
            },
        ),
        PlayerEvent::PositionCorrection { track, position_ms } => Some(
            ConnectEvent {
                position_ms: Some(*position_ms),
                ..ConnectEvent::plain("position_correction", &context_about(ctx, track))
            },
        ),
        PlayerEvent::Stopped { track } => Some(
            ConnectEvent::plain("stopped", &context_about(ctx, track)),
        ),
        PlayerEvent::Unavailable { track } => Some(
            ConnectEvent::plain("unavailable", &context_about(ctx, track)),
        ),
        PlayerEvent::EndOfTrack { track } => if !memory.saw_playing
            || memory.last_duration_ms.is_none() {
            None
        } else {
            Some(
                ConnectEvent {
                    position_ms: memory.last_position_ms,
                    duration_ms: memory.last_duration_ms,
                    ..ConnectEvent::plain("end_of_track", &context_about(ctx, track))
                },
            )
        },
        PlayerEvent::VolumeChanged { volume } => Some(
            ConnectEvent {
                volume: Some(*volume),
                ..ConnectEvent::plain("volume", &context_about_nothing(ctx))
            },
        ),
        _ => None,
    }
}

} // verus!
