//! The decisions taken while a track is streamed: what the log, the start-up probe, the player and
//! the caller's stop signal lead to.

use vstd::prelude::*;

use crate::events::{
    error_event, event_views, log_views, metric_event, plain_event, ConnectEvent, ConnectEventView,
    EventContext, EventContextView, LogEvent, LogEventView,
};
use crate::logging::{
    is_audio_key_error, is_decoder_error, log_line, lower_ascii, mentions_audio_key,
    mentions_decoder, push_log,
};
use crate::playback::{
    about, context_about, event_name, event_name_of, payload_for, player_payload,
    trace_lines, PlaybackMemory, PlayerEvent, PlayerEventView, PlayerTrace,
};
use crate::spotify::SpotifyItemView;
use crate::text::lowercase;

verus! {

/// The scope under which a stream logs.
pub open spec fn stream_scope() -> Seq<char> {
    "stream_track"@
}

/// What the tasks of one stream or of one connect host share.
#[derive(Clone, Copy, Debug, PartialEq, Eq, Structural)]
pub struct StreamFlags {
    /// Audio has come out of the player.
    pub first_chunk: bool,
    /// When audio last came out, in milliseconds since the epoch; zero before it ever did.
    pub last_pcm_at: u64,
    /// The time to the first audio has been reported.
    pub metric_sent: bool,
    /// An error has been reported.
    pub error_sent: bool,
    /// A decoding error has been reported.
    pub decoder_metric_sent: bool,
    /// The stream has been stopped.
    pub stopped: bool,
}

/// The flags at the start of a stream.
pub open spec fn fresh_flags() -> StreamFlags {
    StreamFlags {
        first_chunk: false,
        last_pcm_at: 0,
        metric_sent: false,
        error_sent: false,
        decoder_metric_sent: false,
        stopped: false,
    }
}

impl StreamFlags {
    pub fn new() -> (flags: StreamFlags)
        ensures
            flags == fresh_flags(),
    {
        StreamFlags {
            first_chunk: false,
            last_pcm_at: 0,
            metric_sent: false,
            error_sent: false,
            decoder_metric_sent: false,
            stopped: false,
        }
    }
}

/// What a log line led to.
#[derive(Debug)]
pub struct LogWatch {
    /// The stream is over: no further log line is to be looked at.
    pub done: bool,
    pub events: Vec<ConnectEvent>,
}

/// The flags after a log line that reports a decoding error, an audio key error, both or neither.
pub open spec fn watched_flags(
    flags: StreamFlags,
    listening: bool,
    decoder: bool,
    key: bool,
) -> StreamFlags {
    if flags.stopped {
        flags
    } else {
        StreamFlags {
            decoder_metric_sent: flags.decoder_metric_sent || (decoder && listening),
            error_sent: flags.error_sent || key,
            ..flags
        }
    }
}

/// The events that such a log line leads to: each kind of trouble is reported once.
pub open spec fn watched_events(
    flags: StreamFlags,
    ctx: EventContextView,
    listening: bool,
    message: Seq<char>,
    decoder: bool,
    key: bool,
) -> Seq<ConnectEventView> {
    if flags.stopped || !listening {
        Seq::empty()
    } else {
        (if decoder && !flags.decoder_metric_sent {
            seq![metric_event(ctx, "decode_error"@, None, Some(message))]
        } else {
            Seq::empty()
        }) + (if key && !flags.error_sent {
            seq![error_event(ctx, "audio_key_error"@, message)]
        } else {
            Seq::empty()
        })
    }
}

/// Looks at a log line that has been found to report a decoding error (`decoder`), an audio key
/// error (`key`), both or neither.
pub fn watch_trouble(
    flags: &mut StreamFlags,
    ctx: &EventContext,
    listening: bool,
    message: &str,
    decoder: bool,
    key: bool,
) -> (watch: LogWatch)
    ensures
        watch.done == old(flags).stopped,
        event_views(watch.events@) == watched_events(
            *old(flags),
            ctx@,
            listening,
            message@,
            decoder,
            key,
        ),
        *final(flags) == watched_flags(*old(flags), listening, decoder, key),
{
    let mut events: Vec<ConnectEvent> = Vec::new();
    if flags.stopped {
        assert(event_views(events@) =~= Seq::empty());
        return LogWatch { done: true, events };
    }
    if decoder && listening && !flags.decoder_metric_sent {
        flags.decoder_metric_sent = true;
        events.push(ConnectEvent::metric(ctx, "decode_error", None, Some(message.to_owned())));
    }
    if key && !flags.error_sent {
        flags.error_sent = true;
        if listening {
            events.push(ConnectEvent::error(ctx, "audio_key_error", message));
        }
    }
    assert(event_views(events@) =~= watched_events(
        *old(flags),
        ctx@,
        listening,
        message@,
        decoder,
        key,
    ));
    LogWatch { done: false, events }
}

/// Looks at a log line for signs of trouble with the stream.
pub fn watch_log(
    flags: &mut StreamFlags,
    ctx: &EventContext,
    listening: bool,
    event: &LogEvent,
) -> (watch: LogWatch)
    ensures
        watch.done == old(flags).stopped,
        event_views(watch.events@) == watched_events(
            *old(flags),
            ctx@,
            listening,
            event@.message,
            mentions_decoder(lowercase(event@.message)),
            mentions_audio_key(lowercase(event@.message)),
        ),
        *final(flags) == watched_flags(
            *old(flags),
            listening,
            mentions_decoder(lowercase(event@.message)),
            mentions_audio_key(lowercase(event@.message)),
        ),
        vstd::utf8::is_ascii_chars(event@.message) ==> event_views(watch.events@)
            == watched_events(
            *old(flags),
            ctx@,
            listening,
            event@.message,
            mentions_decoder(lower_ascii(event@.message)),
            mentions_audio_key(lower_ascii(event@.message)),
        ),
{
    let decoder = is_decoder_error(event);
    let key = is_audio_key_error(event);
    watch_trouble(flags, ctx, listening, event.message.as_str(), decoder, key)
}

/// How long a stream is given to bring audio before the probe looks at it, in milliseconds.
pub const PROBE_DELAY_MS: u64 = 1500;

/// What the start-up probe found to report.
#[derive(Debug)]
pub struct ProbeReport {
    pub logs: Vec<LogEvent>,
    pub events: Vec<ConnectEvent>,
}

/// The probe has something to report: no audio has come, and no error was reported yet.
pub open spec fn probe_fires(flags: StreamFlags) -> bool {
    !flags.first_chunk && !flags.error_sent
}

/// The events that the probe leads to.
pub open spec fn probe_events(
    flags: StreamFlags,
    ctx: EventContextView,
    listening: bool,
) -> Seq<ConnectEventView> {
    if probe_fires(flags) && listening {
        seq![error_event(ctx, "no_pcm"@, "no pcm after 1500ms"@)]
    } else {
        Seq::empty()
    }
}

/// The flags after the probe.
pub open spec fn probed_flags(flags: StreamFlags) -> StreamFlags {
    StreamFlags { error_sent: flags.error_sent || !flags.first_chunk, ..flags }
}

/// Looks, some time after the start, whether the stream has brought audio.
pub fn probe(
    flags: &mut StreamFlags,
    ctx: &EventContext,
    logging: bool,
    listening: bool,
) -> (report: ProbeReport)
    ensures
        event_views(report.events@) == probe_events(*old(flags), ctx@, listening),
        log_views(report.logs@) == (if probe_fires(*old(flags)) {
            log_line(logging, "warn"@, "no pcm after 1500ms"@, stream_scope(), ctx@)
        } else {
            Seq::empty()
        }),
        *final(flags) == probed_flags(*old(flags)),
{
    let mut logs: Vec<LogEvent> = Vec::new();
    let mut events: Vec<ConnectEvent> = Vec::new();
    assert(log_views(logs@) =~= Seq::empty());
    if !flags.first_chunk && !flags.error_sent {
        flags.error_sent = true;
        push_log(&mut logs, logging, "warn", "no pcm after 1500ms", "stream_track", ctx);
        if listening {
            events.push(ConnectEvent::error(ctx, "no_pcm", "no pcm after 1500ms"));
        }
    }
    assert(log_views(logs@) =~= (if probe_fires(*old(flags)) {
        log_line(logging, "warn"@, "no pcm after 1500ms"@, stream_scope(), ctx@)
    } else {
        Seq::empty()
    }));
    assert(event_views(events@) =~= probe_events(*old(flags), ctx@, listening));
    ProbeReport { logs, events }
}

/// What a stream remembers of its player.
#[derive(Clone, Copy, Debug, PartialEq, Eq, Structural)]
pub struct StreamPlayback {
    pub memory: PlaybackMemory,
    /// The track has been found unavailable.
    pub sent_unavailable: bool,
}

impl StreamPlayback {
    pub fn new() -> (playback: StreamPlayback)
        ensures
            playback == fresh_playback(),
    {
        StreamPlayback { memory: PlaybackMemory::new(), sent_unavailable: false }
    }
}

/// What a stream remembers of its player at the start.
pub open spec fn fresh_playback() -> StreamPlayback {
    StreamPlayback {
        memory: PlaybackMemory {
            last_position_ms: None,
            last_duration_ms: None,
            saw_playing: false,
        },
        sent_unavailable: false,
    }
}

/// The player reports for the first time that the track is unavailable.
pub open spec fn newly_unavailable(playback: StreamPlayback, event: PlayerEventView) -> bool {
    event is Unavailable && !playback.sent_unavailable
}

/// The track that an end of track is about.
pub open spec fn ended_track(event: PlayerEventView) -> SpotifyItemView
    recommends
        event is EndOfTrack,
{
    event->EndOfTrack_track
}

/// The track ends after it was heard to play or be paused.
pub open spec fn ended(playback: StreamPlayback, event: PlayerEventView) -> bool {
    event is EndOfTrack && playback.memory.saw_playing
}

/// The track ends before it was heard to play or be paused.
pub open spec fn ended_unheard(playback: StreamPlayback, event: PlayerEventView) -> bool {
    event is EndOfTrack && !playback.memory.saw_playing
}

/// The event that says that a track has ended, with the position that was told last.
pub open spec fn end_event(
    memory: PlaybackMemory,
    ctx: EventContextView,
    track: SpotifyItemView,
) -> ConnectEventView {
    ConnectEventView {
        position_ms: memory.last_position_ms,
        duration_ms: memory.last_duration_ms,
        ..plain_event("end_of_track"@, about(ctx, track))
    }
}

/// The error that says that a track has ended before it was heard.
pub open spec fn unheard_event(ctx: EventContextView, track: SpotifyItemView) -> ConnectEventView {
    error_event(about(ctx, track), "end_of_track"@, "end_of_track before pcm"@)
}

/// The events that a player event leads to. An unavailable track is an error before it is an event
/// of its own; the end of a track that was never heard is an error instead of an event.
pub open spec fn player_events(
    playback: StreamPlayback,
    flags: StreamFlags,
    ctx: EventContextView,
    listening: bool,
    event: PlayerEventView,
) -> Seq<ConnectEventView> {
    if !listening {
        Seq::empty()
    } else if ended(playback, event) {
        seq![end_event(playback.memory, ctx, ended_track(event))]
    } else if ended_unheard(playback, event) {
        if flags.error_sent {
            Seq::empty()
        } else {
            seq![unheard_event(ctx, ended_track(event))]
        }
    } else {
        (if newly_unavailable(playback, event) && !flags.error_sent {
            seq![error_event(ctx, "unavailable"@, "track unavailable"@)]
        } else {
            Seq::empty()
        }) + (match player_payload(playback.memory, ctx, event) {
            Some(payload) => seq![payload],
            None => Seq::empty(),
        })
    }
}

/// The flags after a player event.
pub open spec fn player_flags(
    playback: StreamPlayback,
    flags: StreamFlags,
    listening: bool,
    event: PlayerEventView,
) -> StreamFlags {
    StreamFlags {
        error_sent: flags.error_sent || newly_unavailable(playback, event) || (listening
            && ended_unheard(playback, event)),
        ..flags
    }
}

/// What is remembered after a player event: the position at which it plays or is paused.
pub open spec fn player_playback(
    playback: StreamPlayback,
    listening: bool,
    event: PlayerEventView,
) -> StreamPlayback {
    StreamPlayback {
        memory: match event {
            PlayerEventView::Playing { position_ms, .. } if listening => PlaybackMemory {
                saw_playing: true,
                last_position_ms: Some(position_ms),
                ..playback.memory
            },
            PlayerEventView::Paused { position_ms, .. } if listening => PlaybackMemory {
                saw_playing: true,
                last_position_ms: Some(position_ms),
                ..playback.memory
            },
            _ => playback.memory,
        },
        sent_unavailable: playback.sent_unavailable || event is Unavailable,
    }
}

/// The lines that log a player event.
pub open spec fn player_lines(
    trace: PlayerTrace,
    playback: StreamPlayback,
    ctx: EventContextView,
    logging: bool,
    event: PlayerEventView,
) -> Seq<LogEventView> {
    trace_lines(trace, logging, stream_scope(), ctx, event_name_of(event)) + (if newly_unavailable(
        playback,
        event,
    ) {
        log_line(logging, "warn"@, "player reported track unavailable"@, stream_scope(), ctx)
    } else {
        Seq::empty()
    })
}

/// What a player event led to.
#[derive(Debug)]
pub struct PlayerReport {
    pub logs: Vec<LogEvent>,
    pub events: Vec<ConnectEvent>,
}

/// Takes in an event of the stream's player.
pub fn on_player_event(
    trace: &mut PlayerTrace,
    playback: &mut StreamPlayback,
    flags: &mut StreamFlags,
    ctx: &EventContext,
    logging: bool,
    listening: bool,
    event: &PlayerEvent,
) -> (report: PlayerReport)
    requires
        old(trace).event_count < u32::MAX,
    ensures
        log_views(report.logs@) == player_lines(*old(trace), *old(playback), ctx@, logging, event@),
        event_views(report.events@) == player_events(
            *old(playback),
            *old(flags),
            ctx@,
            listening,
            event@,
        ),
        *final(flags) == player_flags(*old(playback), *old(flags), listening, event@),
        *final(playback) == player_playback(*old(playback), listening, event@),
        final(trace).first_event_logged,
        final(trace).event_count == old(trace).event_count + 1,
{
    let mut logs: Vec<LogEvent> = Vec::new();
    let mut events: Vec<ConnectEvent> = Vec::new();
    assert(log_views(logs@) =~= Seq::empty());
    let ghost trace0 = *trace;
    let ghost playback0 = *playback;
    let ghost flags0 = *flags;
    trace.record(&mut logs, logging, "stream_track", ctx, event_name(event));
    let unavailable = match event {
        PlayerEvent::Unavailable { .. } => true,
        _ => false,
    };
    if unavailable && !playback.sent_unavailable {
        playback.sent_unavailable = true;
        push_log(
            &mut logs,
            logging,
            "warn",
            "player reported track unavailable",
            "stream_track",
            ctx,
        );
        if !flags.error_sent {
            flags.error_sent = true;
            if listening {
                events.push(ConnectEvent::error(ctx, "unavailable", "track unavailable"));
            }
        }
    }
    assert(log_views(logs@) =~= player_lines(trace0, playback0, ctx@, logging, event@));
    if listening {
        if let PlayerEvent::EndOfTrack { track } = event {
            let about_track = context_about(ctx, track);
            if playback.memory.saw_playing {
                events.push(
                    ConnectEvent {
                        position_ms: playback.memory.last_position_ms,
                        duration_ms: playback.memory.last_duration_ms,
                        ..ConnectEvent::plain("end_of_track", &about_track)
                    },
                );
            } else if !flags.error_sent {
                flags.error_sent = true;
                events.push(
                    ConnectEvent::error(&about_track, "end_of_track", "end_of_track before pcm"),
                );
            }
        } else if let Some(payload) = payload_for(&playback.memory, ctx, event) {
            events.push(payload);
        }
        match event {
            PlayerEvent::Playing { position_ms, .. } => {
                playback.memory.saw_playing = true;
                playback.memory.last_position_ms = Some(*position_ms);
            },
            PlayerEvent::Paused { position_ms, .. } => {
                playback.memory.saw_playing = true;
                playback.memory.last_position_ms = Some(*position_ms);
            },
            _ => {},
        }
    }
    assert(event_views(events@) =~= player_events(playback0, flags0, ctx@, listening, event@));
    PlayerReport { logs, events }
}

/// Takes in the caller's wish to stop the stream; the player is then to be stopped.
pub fn on_stop(flags: &mut StreamFlags, ctx: &EventContext, logging: bool) -> (logs: Vec<LogEvent>)
    ensures
        log_views(logs@) == log_line(
            logging,
            "info"@,
            "stop received; player.stop()"@,
            stream_scope(),
            ctx@,
        ),
        *final(flags) == (StreamFlags { stopped: true, ..*old(flags) }),
{
    let mut logs: Vec<LogEvent> = Vec::new();
    assert(log_views(logs@) =~= Seq::empty());
    flags.stopped = true;
    push_log(&mut logs, logging, "info", "stop received; player.stop()", "stream_track", ctx);
    assert(log_views(logs@) =~= log_line(
        logging,
        "info"@,
        "stop received; player.stop()"@,
        stream_scope(),
        ctx@,
    ));
    logs
}

} // verus!
