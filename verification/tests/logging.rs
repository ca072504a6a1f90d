use node_librespot::events::LogEvent;
use node_librespot::logging::{
    emit_log_ctx, filter_for, has_audio_key_phrase, has_decoder_phrase, init_native_logger,
    initial_filter,
    is_audio_key_error, is_decoder_error, keep_observer, level_name, record_event, set_log_level,
    Delivery, Level, LevelFilter, LoggerState,
};

fn line(message: &str) -> LogEvent {
    LogEvent {
        level: "error".to_string(),
        message: message.to_string(),
        scope: None,
        device_id: None,
        session_id: None,
    }
}

#[test]
fn level_names_are_those_of_the_log_crate() {
    let pairs = [
        (Level::Error, log::Level::Error),
        (Level::Warn, log::Level::Warn),
        (Level::Info, log::Level::Info),
        (Level::Debug, log::Level::Debug),
        (Level::Trace, log::Level::Trace),
    ];
    for (ours, theirs) in pairs {
        assert_eq!(level_name(ours), theirs.to_string().to_lowercase());
    }
}

#[test]
fn record_becomes_an_event() {
    let event = record_event(Level::Warn, "m".to_string(), "librespot_core".to_string());
    assert_eq!(event.level, "warn");
    assert_eq!(event.message, "m");
    assert_eq!(event.scope.as_deref(), Some("librespot_core"));
    assert_eq!(event.device_id, None);
    assert_eq!(event.session_id, None);
}

#[test]
fn observers_leave_when_closed() {
    assert!(keep_observer(Delivery::Sent));
    assert!(keep_observer(Delivery::QueueFull));
    assert!(!keep_observer(Delivery::QueueClosed));
}

#[test]
fn logger_is_installed_once() {
    let mut state = LoggerState::new();
    let first = init_native_logger(&mut state, true);
    assert!(first.register && first.install);
    let second = init_native_logger(&mut state, true);
    assert!(second.register && !second.install);
    let third = init_native_logger(&mut state, false);
    assert!(!third.register && !third.install);
}

#[test]
fn chosen_level_survives_later_setups() {
    assert_eq!(initial_filter(), LevelFilter::Debug);
    let mut state = LoggerState::new();
    assert!(!state.installed);
    init_native_logger(&mut state, false);
    assert!(state.installed);
    assert_eq!(state.max_level, LevelFilter::Debug);
    set_log_level(&mut state, "error".to_string()).1.unwrap();
    assert_eq!(state.max_level, LevelFilter::Error);
    init_native_logger(&mut state, true);
    assert_eq!(state.max_level, LevelFilter::Error);
    set_log_level(&mut state, "loud".to_string()).1.unwrap_err();
    assert_eq!(state.max_level, LevelFilter::Error);
    let mut state = LoggerState::new();
    set_log_level(&mut state, "loud".to_string()).1.unwrap_err();
    assert!(state.installed);
    assert_eq!(state.max_level, LevelFilter::Debug);
    let mut state = LoggerState::new();
    set_log_level(&mut state, "off".to_string()).1.unwrap();
    init_native_logger(&mut state, false);
    assert_eq!(state.max_level, LevelFilter::Off);
}

#[test]
fn log_levels_are_named() {
    let names = [
        ("off", LevelFilter::Off),
        ("error", LevelFilter::Error),
        ("warn", LevelFilter::Warn),
        ("warning", LevelFilter::Warn),
        ("info", LevelFilter::Info),
        ("debug", LevelFilter::Debug),
        ("trace", LevelFilter::Trace),
    ];
    for (name, filter) in names {
        assert_eq!(filter_for(name), Some(filter));
        let mut state = LoggerState::new();
        let (setup, r) = set_log_level(&mut state, format!(" \t{}\n", name.to_uppercase()));
        assert!(setup.install && !setup.register);
        assert_eq!(r.unwrap(), filter);
    }
    assert_eq!(filter_for("WARN"), None);
    assert_eq!(filter_for(""), None);
}

#[test]
fn unknown_log_level_is_refused_after_setup() {
    let mut state = LoggerState::new();
    let (setup, r) = set_log_level(&mut state, " Loud ".to_string());
    assert!(setup.install);
    assert_eq!(r.unwrap_err().reason, "invalid log level:  Loud ");
    let (setup, r) = set_log_level(&mut state, "".to_string());
    assert!(!setup.install);
    assert_eq!(r.unwrap_err().reason, "invalid log level: ");
}

#[test]
fn non_ascii_capitals_are_lowered() {
    let mut state = LoggerState::new();
    // The Kelvin sign lowers to an ASCII letter; no level has a `k` in it, so it is refused.
    let (_, r) = set_log_level(&mut state, "\u{212a}".to_string());
    assert!(r.is_err());
    // In a message it counts as a `k`.
    assert!(is_audio_key_error(&line("AUDIO \u{212a}EY")));
}

#[test]
fn audio_key_lines() {
    for message in [
        "audio key",
        "Audio Key error",
        "AudioKeyError { }",
        "no DECRYPTION KEY",
        "Unable to load key, continuing without decryption",
        "Unable to load decryption key",
    ] {
        assert!(is_audio_key_error(&line(message)), "{}", message);
    }
    for message in ["", "audio  key", "key", "unable to load", "decoder error"] {
        assert!(!is_audio_key_error(&line(message)), "{}", message);
    }
    assert!(has_audio_key_phrase("the audio key"));
    assert!(!has_audio_key_phrase("the AUDIO KEY"));
}

#[test]
fn decoder_lines() {
    for message in [
        "Decoder Error",
        "Symphonia Decoder Error: Deadline exceeded",
        "Unable to read audio file",
        "unexpected End Of Stream",
    ] {
        assert!(is_decoder_error(&line(message)), "{}", message);
    }
    for message in ["", "decoder", "end of the stream", "audio key"] {
        assert!(!is_decoder_error(&line(message)), "{}", message);
    }
    assert!(has_decoder_phrase("end of stream"));
    assert!(!has_decoder_phrase("END OF STREAM"));
}

#[test]
fn log_context() {
    assert!(emit_log_ctx(false, "info", "m", None, None, None).is_none());
    let event = emit_log_ctx(true, "info", "m", Some("s"), Some("d"), None).unwrap();
    assert_eq!(event.level, "info");
    assert_eq!(event.message, "m");
    assert_eq!(event.scope.as_deref(), Some("s"));
    assert_eq!(event.device_id.as_deref(), Some("d"));
    assert_eq!(event.session_id, None);
    assert_eq!(event.clone().message, "m");
}
