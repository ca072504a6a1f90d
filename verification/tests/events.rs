use node_librespot::events::{
    event_properties, log_properties, ConnectEvent, EventContext, LogEvent, Property, PropertyValue,
};

fn ctx() -> EventContext {
    EventContext {
        device_id: Some("d".to_string()),
        session_id: Some("s".to_string()),
        track_id: Some("t".to_string()),
        uri: Some("u".to_string()),
    }
}

fn shown(properties: &[Property]) -> String {
    properties
        .iter()
        .map(|p| match &p.value {
            PropertyValue::Text(t) => format!("{}='{}'", p.name, t),
            PropertyValue::Number(n) => format!("{}={}", p.name, n),
        })
        .collect::<Vec<String>>()
        .join(" ")
}

#[test]
fn plain_events_have_no_optional_properties() {
    let event = ConnectEvent::plain("stopped", &ctx());
    assert_eq!(
        shown(&event_properties(&event, true)),
        "type='stopped' deviceId='d' sessionId='s' trackId='t' uri='u'"
    );
    let nowhere = EventContext { device_id: None, session_id: None, track_id: None, uri: None };
    assert_eq!(
        shown(&event_properties(&ConnectEvent::plain("volume", &nowhere), false)),
        "type='volume'"
    );
}

#[test]
fn full_event_has_all_properties_in_order() {
    let event = ConnectEvent {
        title: Some("T".to_string()),
        artist: Some("A".to_string()),
        album: Some("B".to_string()),
        duration_ms: Some(2),
        position_ms: Some(1),
        volume: Some(65535),
        error_code: Some("c".to_string()),
        error_message: Some("m".to_string()),
        metric_name: Some("n".to_string()),
        metric_value_ms: Some(u32::MAX),
        metric_message: Some("w".to_string()),
        ..ConnectEvent::plain("playing", &ctx())
    };
    assert_eq!(
        shown(&event_properties(&event, true)),
        "type='playing' deviceId='d' sessionId='s' trackId='t' uri='u' title='T' artist='A' \
         album='B' positionMs=1 durationMs=2 volume=65535 errorCode='c' errorMessage='m' \
         metricName='n' metricValueMs=4294967295 metricMessage='w'"
    );
    assert_eq!(
        shown(&event_properties(&event, false)),
        "type='playing' deviceId='d' sessionId='s' trackId='t' uri='u' positionMs=1 durationMs=2 \
         volume=65535 errorCode='c' errorMessage='m' metricName='n' metricValueMs=4294967295 \
         metricMessage='w'"
    );
}

#[test]
fn error_and_metric_events() {
    let event = ConnectEvent::error(&ctx(), "no_pcm", "none");
    assert_eq!(
        shown(&event_properties(&event, true)),
        "type='error' deviceId='d' sessionId='s' trackId='t' uri='u' errorCode='no_pcm' errorMessage='none'"
    );
    let event = ConnectEvent::metric(&ctx(), "first_pcm_ms", Some(0), None);
    assert_eq!(
        shown(&event_properties(&event, true)),
        "type='metric' deviceId='d' sessionId='s' trackId='t' uri='u' metricName='first_pcm_ms' metricValueMs=0"
    );
}

#[test]
fn log_lines_as_properties() {
    let log = LogEvent {
        level: "info".to_string(),
        message: "m".to_string(),
        scope: None,
        device_id: None,
        session_id: None,
    };
    assert_eq!(shown(&log_properties(&log)), "level='info' message='m'");
    let log = LogEvent {
        scope: Some("x".to_string()),
        device_id: Some("d".to_string()),
        session_id: Some("s".to_string()),
        ..log
    };
    assert_eq!(
        shown(&log_properties(&log)),
        "level='info' message='m' scope='x' deviceId='d' sessionId='s'"
    );
}
