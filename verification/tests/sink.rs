use node_librespot::connect::{connect_settings, DeviceType};
use node_librespot::events::EventContext;
use node_librespot::sink::{
    encode_f32_bits, encode_s16, encode_s24, sample_type, AudioFormat, ChannelSink, Pacer,
    SampleType, SinkConfig, MAX_SPAN_NS,
};
use node_librespot::stream::StreamFlags;
use node_librespot::tracks::{open_host_sink, open_stream_sink, player_started};

fn ctx() -> EventContext {
    EventContext {
        device_id: Some("zone".to_string()),
        session_id: Some("stream-1".to_string()),
        track_id: Some("id".to_string()),
        uri: Some("spotify:track:id".to_string()),
    }
}

fn sink(format: AudioFormat, channels: u16) -> ChannelSink {
    ChannelSink::new(SinkConfig {
        format,
        sample_rate: 44100,
        channels,
        scope: "stream_track".to_string(),
        ctx: ctx(),
    })
}

#[test]
fn sample_types() {
    assert_eq!(sample_type(AudioFormat::S16), SampleType::S16);
    assert_eq!(sample_type(AudioFormat::F32), SampleType::F32);
    assert_eq!(sample_type(AudioFormat::S24), SampleType::S24);
    assert_eq!(sample_type(AudioFormat::S32), SampleType::S16);
    assert_eq!(sample_type(AudioFormat::F64), SampleType::S16);
    assert_eq!(sample_type(AudioFormat::S24Packed), SampleType::S16);
}

#[test]
fn sixteen_bit_samples() {
    assert_eq!(encode_s16(&vec![]), Vec::<u8>::new());
    assert_eq!(encode_s16(&vec![1, -1, 0x1234, i16::MIN]), vec![1, 0, 255, 255, 0x34, 0x12, 0, 0x80]);
    let all: Vec<i16> = (i16::MIN..=i16::MAX).collect();
    let expected: Vec<u8> = all.iter().flat_map(|s| s.to_le_bytes()).collect();
    assert_eq!(encode_s16(&all), expected);
}

#[test]
fn wider_samples() {
    let words: Vec<u32> = vec![0, 1.0f32.to_bits(), (-0.5f32).to_bits(), u32::MAX, 0x0102_0304];
    let expected: Vec<u8> = words.iter().flat_map(|w| w.to_le_bytes()).collect();
    assert_eq!(encode_f32_bits(&words), expected);
    let samples: Vec<i32> = vec![0, 1, -1, i32::MIN, i32::MAX, -8388608, 8388607];
    let expected: Vec<u8> = samples.iter().flat_map(|s| s.to_le_bytes()).collect();
    assert_eq!(encode_s24(&samples), expected);
}

#[test]
fn first_chunk_is_announced() {
    let mut flags = StreamFlags::new();
    let mut s = sink(AudioFormat::S16, 2);
    let report = s.write(&mut flags, 0, 5, 1000, true, true);
    assert!(report.logs.is_empty() && report.events.is_empty() && report.console.is_none());
    assert_eq!(flags, StreamFlags::new());
    let report = s.write(&mut flags, 4096, 250, 1001, true, true);
    assert_eq!(
        report.console.as_deref(),
        Some("[node-librespot] first pcm chunk: bytes=4096 sample_rate=44100 channels=2")
    );
    assert_eq!(report.logs.len(), 1);
    assert_eq!(report.logs[0].level, "info");
    assert_eq!(
        report.logs[0].message,
        "first pcm chunk: bytes=4096 sample_rate=44100 channels=2"
    );
    assert_eq!(report.logs[0].scope.as_deref(), Some("stream_track"));
    assert_eq!(report.events.len(), 1);
    assert_eq!(report.events[0].event_type, "metric");
    assert_eq!(report.events[0].metric_name.as_deref(), Some("first_pcm_ms"));
    assert_eq!(report.events[0].metric_value_ms, Some(250));
    assert_eq!(report.events[0].uri.as_deref(), Some("spotify:track:id"));
    assert!(flags.first_chunk && flags.metric_sent);
    assert_eq!(flags.last_pcm_at, 1001);
    let report = s.write(&mut flags, 4096, 300, 1002, true, true);
    assert!(report.logs.is_empty() && report.events.is_empty() && report.console.is_none());
    assert_eq!(flags.last_pcm_at, 1002);
}

#[test]
fn metric_waits_for_a_listener() {
    let mut flags = StreamFlags::new();
    let report = sink(AudioFormat::S16, 2).write(&mut flags, 4, 5, 1, false, false);
    assert!(report.logs.is_empty() && report.events.is_empty());
    assert!(report.console.is_some());
    assert!(flags.first_chunk && !flags.metric_sent);
    let report = sink(AudioFormat::S16, 2).write(&mut flags, 4, u64::MAX, 1, false, true);
    assert_eq!(report.events[0].metric_value_ms, Some(u32::MAX));
}

#[test]
fn frames() {
    assert_eq!(sink(AudioFormat::S16, 2).frame_count(4096), 1024);
    assert_eq!(sink(AudioFormat::S16, 2).frame_count(7), 1);
    assert_eq!(sink(AudioFormat::S16, 1).frame_count(7), 3);
    assert_eq!(sink(AudioFormat::S24, 2).frame_count(12), 2);
    assert_eq!(sink(AudioFormat::S32, 2).frame_count(16), 2);
    assert_eq!(sink(AudioFormat::F32, 2).frame_count(16), 2);
    assert_eq!(sink(AudioFormat::F64, 2).frame_count(16), 4);
    assert_eq!(sink(AudioFormat::S16, u16::MAX).frame_count(0), 0);
}

#[test]
fn pacing_adds_up() {
    let mut pacer = Pacer::new();
    assert_eq!(pacer.pace(100, 1000, 1000), 100);
    // The clock started with the first chunk; later openings do not move it.
    assert_eq!(pacer.pace(50, 9999, 1100), 50);
    assert_eq!(pacer.pace(10, 9999, 1500), 0);
    assert_eq!(pacer.pace(500, 9999, 1500), 160);
    assert_eq!(pacer.start_ns, Some(1000));
    assert_eq!(pacer.expected_ns, 660);
    let mut pacer = Pacer::new();
    assert_eq!(pacer.pace(MAX_SPAN_NS, MAX_SPAN_NS, 0), 2 * MAX_SPAN_NS);
}

#[test]
fn playing_times() {
    assert_eq!(sink(AudioFormat::S16, 2).play_ns(0), 0);
    assert_eq!(sink(AudioFormat::S16, 2).play_ns(4), 22676);
    assert_eq!(sink(AudioFormat::S16, 2).play_ns(4 * 44100), 1_000_000_000);
    assert_eq!(sink(AudioFormat::S16, 2).play_ns(4 * 44100 + 3), 1_000_000_000);
    let seconds = |frames: usize, rate: u32| {
        std::time::Duration::from_secs_f64(frames as f64 / rate as f64).as_nanos()
    };
    for rate in [8000u32, 22050, 44100, 48000, 96000] {
        let mut s = sink(AudioFormat::S16, 2);
        s.config.sample_rate = rate;
        for frames in (0..20_000).chain([44_099, 441_001, 10_000_019]) {
            assert_eq!(s.play_ns(4 * frames), seconds(frames, rate), "{} at {}", frames, rate);
        }
    }
}

#[test]
fn sinks_pace_their_chunks() {
    let mut s = sink(AudioFormat::S16, 2);
    assert_eq!(s.pace(4 * 441, 1000, 1000), 10_000_000);
    assert_eq!(s.pace(4 * 441, 777, 10_001_000), 10_000_000);
    assert_eq!(s.pace(0, 777, 30_000_000), 0);
    assert_eq!(s.pacer.start_ns, Some(1000));
    assert_eq!(s.pacer.expected_ns, 20_000_000);
    // However the chunks are cut, a second of audio takes a second, to half a nanosecond a chunk.
    let mut s = sink(AudioFormat::S16, 2);
    for _ in 0..44100 {
        s.pace(4, 0, 0);
    }
    assert!(s.pacer.expected_ns.abs_diff(1_000_000_000) <= 22050);
}

#[test]
fn longest_span_is_that_of_the_standard_library() {
    assert_eq!(std::time::Duration::MAX.as_nanos(), MAX_SPAN_NS);
}

#[test]
fn sinks_of_streams_and_hosts() {
    let (s, logs) = open_stream_sink(&ctx(), true);
    assert_eq!(s.config.format, AudioFormat::S16);
    assert_eq!(s.config.sample_rate, 44100);
    assert_eq!(s.config.channels, 2);
    assert_eq!(s.config.scope, "stream_track");
    assert_eq!(s.config.ctx.track_id.as_deref(), Some("id"));
    assert_eq!(logs.len(), 1);
    assert_eq!(logs[0].level, "debug");
    assert_eq!(logs[0].message, "sink created");
    assert_eq!(s.start(true)[0].message, "sink start");
    assert_eq!(s.start(true)[0].level, "debug");
    assert!(s.start(false).is_empty());
    assert!(open_stream_sink(&ctx(), false).1.is_empty());
    let s = open_host_sink(&ctx());
    assert_eq!(s.config.scope, "connect_host");
    assert!(!s.first_chunk_logged);
    assert_eq!(player_started(&ctx(), true)[0].message, "player.load + player.play invoked");
    assert!(player_started(&ctx(), false).is_empty());
}

#[test]
fn host_settings() {
    let settings = connect_settings("Lox".to_string());
    assert_eq!(settings.name, "Lox");
    assert_eq!(settings.initial_volume, u16::MAX);
    assert_eq!(settings.volume_steps, 64);
    assert_eq!(settings.device_type, DeviceType::Speaker);
    assert!(!settings.is_group && !settings.disable_volume && !settings.emit_set_queue_events);
}
