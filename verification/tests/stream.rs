use node_librespot::events::{ConnectEvent, EventContext, LogEvent};
use node_librespot::health::HealthMonitor;
use node_librespot::playback::{event_name, payload_for, PlaybackMemory, PlayerEvent, PlayerTrace};
use node_librespot::spotify::SpotifyItem;
use node_librespot::stream::{
    on_player_event, on_stop, probe, watch_log, watch_trouble, StreamFlags, StreamPlayback,
    PROBE_DELAY_MS,
};
use node_librespot::tracks::open_stream_sink;

fn ctx() -> EventContext {
    EventContext {
        device_id: Some("zone".to_string()),
        session_id: Some("stream-1".to_string()),
        track_id: Some("asked".to_string()),
        uri: Some("spotify:track:asked".to_string()),
    }
}

fn track() -> SpotifyItem {
    SpotifyItem { id: "id".to_string(), uri: "spotify:track:id".to_string() }
}

fn line(message: &str) -> LogEvent {
    LogEvent {
        level: "error".to_string(),
        message: message.to_string(),
        scope: None,
        device_id: None,
        session_id: None,
    }
}

fn codes(events: &[ConnectEvent]) -> Vec<String> {
    events
        .iter()
        .map(|e| match (&e.error_code, &e.metric_name) {
            (Some(c), _) => format!("{}:{}", e.event_type, c),
            (_, Some(n)) => format!("{}:{}", e.event_type, n),
            _ => e.event_type.clone(),
        })
        .collect()
}

fn messages(logs: &[LogEvent]) -> Vec<String> {
    logs.iter().map(|l| format!("{}: {}", l.level, l.message)).collect()
}

struct Stream {
    trace: PlayerTrace,
    playback: StreamPlayback,
    flags: StreamFlags,
    listening: bool,
}

fn stream(listening: bool) -> Stream {
    Stream {
        trace: PlayerTrace::new(),
        playback: StreamPlayback::new(),
        flags: StreamFlags::new(),
        listening,
    }
}

impl Stream {
    fn player(&mut self, event: PlayerEvent) -> (Vec<String>, Vec<ConnectEvent>) {
        let report = on_player_event(
            &mut self.trace,
            &mut self.playback,
            &mut self.flags,
            &ctx(),
            true,
            self.listening,
            &event,
        );
        (messages(&report.logs), report.events)
    }
}

#[test]
fn event_names() {
    let names = [
        (PlayerEvent::Playing { track: track(), position_ms: 0 }, "playing"),
        (PlayerEvent::Paused { track: track(), position_ms: 0 }, "paused"),
        (PlayerEvent::Loading { track: track(), position_ms: 0 }, "loading"),
        (PlayerEvent::Stopped { track: track() }, "stopped"),
        (PlayerEvent::EndOfTrack { track: track() }, "end_of_track"),
        (PlayerEvent::Unavailable { track: track() }, "unavailable"),
        (PlayerEvent::Preloading, "preloading"),
        (PlayerEvent::TimeToPreloadNextTrack, "time_to_preload"),
        (PlayerEvent::VolumeChanged { volume: 1 }, "volume"),
        (PlayerEvent::PositionCorrection { track: track(), position_ms: 0 }, "position_correction"),
        (PlayerEvent::PlayRequestIdChanged, "play_request_id"),
        (PlayerEvent::Other, "other"),
    ];
    for (event, name) in names {
        assert_eq!(event_name(&event), name);
    }
}

#[test]
fn playing_is_passed_on_with_the_players_track() {
    let mut s = stream(true);
    let (logs, events) = s.player(PlayerEvent::Playing { track: track(), position_ms: 7 });
    assert_eq!(logs, ["debug: first player event: playing", "debug: player event playing"]);
    assert_eq!(events.len(), 1);
    assert_eq!(events[0].event_type, "playing");
    assert_eq!(events[0].track_id.as_deref(), Some("id"));
    assert_eq!(events[0].uri.as_deref(), Some("spotify:track:id"));
    assert_eq!(events[0].device_id.as_deref(), Some("zone"));
    assert_eq!(events[0].session_id.as_deref(), Some("stream-1"));
    assert_eq!(events[0].position_ms, Some(7));
    assert_eq!(events[0].duration_ms, None);
    assert!(s.playback.memory.saw_playing);
    assert_eq!(s.playback.memory.last_position_ms, Some(7));
}

#[test]
fn five_player_events_are_logged() {
    let mut s = stream(true);
    for i in 0..7 {
        let (logs, events) = s.player(PlayerEvent::Other);
        let expected = if i == 0 {
            2
        } else if i < 5 {
            1
        } else {
            0
        };
        assert_eq!(logs.len(), expected, "{}", i);
        assert!(events.is_empty());
    }
    assert_eq!(s.trace.event_count, 7);
}

#[test]
fn volume_event_is_about_no_track() {
    let mut s = stream(true);
    let (_, events) = s.player(PlayerEvent::VolumeChanged { volume: 65535 });
    assert_eq!(events[0].event_type, "volume");
    assert_eq!(events[0].volume, Some(65535));
    assert_eq!(events[0].track_id, None);
    assert_eq!(events[0].uri, None);
}

#[test]
fn quiet_player_events_are_not_passed_on() {
    let mut s = stream(true);
    for event in [
        PlayerEvent::Preloading,
        PlayerEvent::TimeToPreloadNextTrack,
        PlayerEvent::PlayRequestIdChanged,
        PlayerEvent::Other,
    ] {
        assert!(s.player(event).1.is_empty());
    }
    assert_eq!(codes(&s.player(PlayerEvent::Loading { track: track(), position_ms: 0 }).1), ["loading"]);
    assert_eq!(codes(&s.player(PlayerEvent::Stopped { track: track() }).1), ["stopped"]);
    assert_eq!(
        codes(&s.player(PlayerEvent::PositionCorrection { track: track(), position_ms: 3 }).1),
        ["position_correction"]
    );
    assert!(!s.playback.memory.saw_playing);
    assert_eq!(codes(&s.player(PlayerEvent::Paused { track: track(), position_ms: 4 }).1), ["paused"]);
    assert!(s.playback.memory.saw_playing);
}

#[test]
fn unavailable_is_an_error_once() {
    let mut s = stream(true);
    let (logs, events) = s.player(PlayerEvent::Unavailable { track: track() });
    assert_eq!(
        logs,
        [
            "debug: first player event: unavailable",
            "debug: player event unavailable",
            "warn: player reported track unavailable",
        ]
    );
    assert_eq!(codes(&events), ["error:unavailable", "unavailable"]);
    assert_eq!(events[0].track_id.as_deref(), Some("asked"));
    assert_eq!(events[0].error_message.as_deref(), Some("track unavailable"));
    assert_eq!(events[1].track_id.as_deref(), Some("id"));
    let (logs, events) = s.player(PlayerEvent::Unavailable { track: track() });
    assert_eq!(logs, ["debug: player event unavailable"]);
    assert_eq!(codes(&events), ["unavailable"]);
}

#[test]
fn unavailable_counts_without_a_listener() {
    let mut s = stream(false);
    assert!(s.player(PlayerEvent::Unavailable { track: track() }).1.is_empty());
    assert!(s.flags.error_sent);
    assert!(s.player(PlayerEvent::Playing { track: track(), position_ms: 1 }).1.is_empty());
    assert!(!s.playback.memory.saw_playing);
}

#[test]
fn early_end_is_an_error() {
    let mut s = stream(true);
    let (_, events) = s.player(PlayerEvent::EndOfTrack { track: track() });
    assert_eq!(codes(&events), ["error:end_of_track"]);
    assert_eq!(events[0].track_id.as_deref(), Some("id"));
    assert_eq!(events[0].error_message.as_deref(), Some("end_of_track before pcm"));
    assert!(s.player(PlayerEvent::EndOfTrack { track: track() }).1.is_empty());
}

#[test]
fn a_track_that_was_heard_ends_with_an_event() {
    let mut s = stream(true);
    s.player(PlayerEvent::Playing { track: track(), position_ms: 5000 });
    let (mut sink, _) = open_stream_sink(&ctx(), false);
    sink.write(&mut s.flags, 4096, 10, 10, false, true);
    let (_, events) = s.player(PlayerEvent::EndOfTrack { track: track() });
    assert_eq!(codes(&events), ["end_of_track"]);
    assert_eq!(events[0].track_id.as_deref(), Some("id"));
    assert_eq!(events[0].uri.as_deref(), Some("spotify:track:id"));
    assert_eq!(events[0].position_ms, Some(5000));
    assert_eq!(events[0].duration_ms, None);
    assert_eq!(events[0].error_code, None);
    assert!(!s.flags.error_sent);
}

#[test]
fn the_end_is_told_after_an_error_too() {
    let mut s = stream(true);
    s.player(PlayerEvent::Playing { track: track(), position_ms: 1 });
    s.player(PlayerEvent::Paused { track: track(), position_ms: 2 });
    probe(&mut s.flags, &ctx(), false, true);
    assert!(s.flags.error_sent);
    let (_, events) = s.player(PlayerEvent::EndOfTrack { track: track() });
    assert_eq!(codes(&events), ["end_of_track"]);
    assert_eq!(events[0].position_ms, Some(2));
}

#[test]
fn the_end_is_not_told_without_a_listener() {
    let mut s = stream(false);
    s.player(PlayerEvent::Playing { track: track(), position_ms: 1 });
    assert!(s.player(PlayerEvent::EndOfTrack { track: track() }).1.is_empty());
    assert!(!s.flags.error_sent);
}

#[test]
fn a_host_tells_the_end_with_a_known_duration() {
    let memory = PlaybackMemory {
        last_position_ms: Some(5),
        last_duration_ms: Some(9),
        saw_playing: true,
    };
    let event = payload_for(&memory, &ctx(), &PlayerEvent::EndOfTrack { track: track() }).unwrap();
    assert_eq!(event.event_type, "end_of_track");
    assert_eq!(event.position_ms, Some(5));
    assert_eq!(event.duration_ms, Some(9));
    let unseen = PlaybackMemory { saw_playing: false, ..memory };
    assert!(payload_for(&unseen, &ctx(), &PlayerEvent::EndOfTrack { track: track() }).is_none());
    let unknown = PlaybackMemory { last_duration_ms: None, ..memory };
    assert!(payload_for(&unknown, &ctx(), &PlayerEvent::EndOfTrack { track: track() }).is_none());
}

#[test]
fn probe_reports_missing_audio() {
    assert_eq!(PROBE_DELAY_MS, 1500);
    let mut flags = StreamFlags::new();
    let report = probe(&mut flags, &ctx(), true, true);
    assert_eq!(codes(&report.events), ["error:no_pcm"]);
    assert_eq!(report.events[0].error_message.as_deref(), Some("no pcm after 1500ms"));
    assert_eq!(messages(&report.logs), ["warn: no pcm after 1500ms"]);
    assert_eq!(report.logs[0].scope.as_deref(), Some("stream_track"));
    assert!(flags.error_sent);
    let again = probe(&mut flags, &ctx(), true, true);
    assert!(again.events.is_empty() && again.logs.is_empty());

    let mut flags = StreamFlags { first_chunk: true, ..StreamFlags::new() };
    let report = probe(&mut flags, &ctx(), true, true);
    assert!(report.events.is_empty() && report.logs.is_empty());
    assert!(!flags.error_sent);

    let mut flags = StreamFlags::new();
    let report = probe(&mut flags, &ctx(), false, false);
    assert!(report.events.is_empty() && report.logs.is_empty());
    assert!(flags.error_sent);
}

#[test]
fn log_lines_are_watched() {
    let mut flags = StreamFlags::new();
    assert!(watch_log(&mut flags, &ctx(), true, &line("all is well")).events.is_empty());
    let watch = watch_log(&mut flags, &ctx(), true, &line("Decoder Error: bad packet"));
    assert!(!watch.done);
    assert_eq!(codes(&watch.events), ["metric:decode_error"]);
    assert_eq!(watch.events[0].metric_message.as_deref(), Some("Decoder Error: bad packet"));
    assert_eq!(watch.events[0].metric_value_ms, None);
    assert!(watch_log(&mut flags, &ctx(), true, &line("decoder error")).events.is_empty());
    let watch = watch_log(&mut flags, &ctx(), true, &line("Audio Key refused"));
    assert_eq!(codes(&watch.events), ["error:audio_key_error"]);
    assert_eq!(watch.events[0].error_message.as_deref(), Some("Audio Key refused"));
    assert!(watch_log(&mut flags, &ctx(), true, &line("audio key")).events.is_empty());
}

#[test]
fn one_line_can_report_both() {
    let mut flags = StreamFlags::new();
    let watch = watch_log(&mut flags, &ctx(), true, &line("decoder error: no audio key"));
    assert_eq!(codes(&watch.events), ["metric:decode_error", "error:audio_key_error"]);
    let mut flags = StreamFlags::new();
    let watch = watch_trouble(&mut flags, &ctx(), false, "m", true, true);
    assert!(watch.events.is_empty());
    assert!(flags.error_sent && !flags.decoder_metric_sent);
}

#[test]
fn nothing_is_watched_after_a_stop() {
    let mut flags = StreamFlags::new();
    let logs = on_stop(&mut flags, &ctx(), true);
    assert_eq!(messages(&logs), ["info: stop received; player.stop()"]);
    assert!(flags.stopped);
    let watch = watch_log(&mut flags, &ctx(), true, &line("audio key"));
    assert!(watch.done && watch.events.is_empty());
    assert!(!flags.error_sent);
    assert!(on_stop(&mut flags, &ctx(), false).is_empty());
}

#[test]
fn whatever_goes_wrong_is_one_error() {
    let mut s = stream(true);
    let mut events: Vec<ConnectEvent> = Vec::new();
    events.extend(s.player(PlayerEvent::EndOfTrack { track: track() }).1);
    events.extend(s.player(PlayerEvent::Unavailable { track: track() }).1);
    events.extend(probe(&mut s.flags, &ctx(), false, true).events);
    events.extend(watch_log(&mut s.flags, &ctx(), true, &line("audio key")).events);
    let errors = events.iter().filter(|e| e.event_type == "error").count();
    assert_eq!(errors, 1);
    assert_eq!(events[0].error_code.as_deref(), Some("end_of_track"));
}

#[test]
fn first_audio_is_reported_once_for_all_sinks() {
    let mut flags = StreamFlags::new();
    let mut metrics = 0;
    for _ in 0..3 {
        let (mut sink, _) = open_stream_sink(&ctx(), false);
        for len in [0, 4, 4] {
            metrics += sink.write(&mut flags, len, 1, 1, false, true).events.len();
        }
    }
    assert_eq!(metrics, 1);
}

#[test]
fn silent_without_a_listener() {
    let mut s = stream(false);
    assert!(s.player(PlayerEvent::Playing { track: track(), position_ms: 0 }).1.is_empty());
    assert!(probe(&mut s.flags, &ctx(), false, false).events.is_empty());
    assert!(watch_log(&mut s.flags, &ctx(), false, &line("decoder error")).events.is_empty());
    let (mut sink, _) = open_stream_sink(&ctx(), false);
    assert!(sink.write(&mut s.flags, 4, 1, 1, false, false).events.is_empty());
    s.flags.stopped = true;
    assert!(HealthMonitor::new().tick(&s.flags, &ctx(), 1).events.is_empty());
}
