use node_librespot::events::EventContext;
use node_librespot::health::{HealthMonitor, HEALTH_INTERVAL_MS, STALL_LIMIT_MS};
use node_librespot::stream::StreamFlags;

fn ctx() -> EventContext {
    EventContext {
        device_id: Some("zone".to_string()),
        session_id: Some("connect-1".to_string()),
        track_id: None,
        uri: None,
    }
}

fn look(monitor: &mut HealthMonitor, last: u64, now: u64) -> Vec<(String, Option<u32>)> {
    let flags = StreamFlags { last_pcm_at: last, ..StreamFlags::new() };
    let report = monitor.tick(&flags, &ctx(), now);
    assert!(!report.done);
    report
        .events
        .into_iter()
        .map(|e| {
            let name = e.error_code.or(e.metric_name).unwrap();
            (format!("{}:{}", e.event_type, name), e.metric_value_ms)
        })
        .collect()
}

fn health(code: &str) -> Vec<(String, Option<u32>)> {
    vec![(format!("health:{}", code), None)]
}

fn stall(ms: u32) -> Vec<(String, Option<u32>)> {
    vec![("metric:buffer_stall_ms".to_string(), Some(ms)), ("health:pcm_stalled".to_string(), None)]
}

#[test]
fn looks_report_the_state() {
    assert_eq!(HEALTH_INTERVAL_MS, 5000);
    assert_eq!(STALL_LIMIT_MS, 2000);
    let mut monitor = HealthMonitor::new();
    assert_eq!(look(&mut monitor, 0, 1_000_000), health("pcm_missing"));
    assert_eq!(look(&mut monitor, 1000, 1000), health("pcm_ok"));
    assert_eq!(look(&mut monitor, 1000, 3000), health("pcm_ok"));
    assert_eq!(look(&mut monitor, 1000, 3001), stall(2001));
    // A clock that was set back counts as no silence.
    assert_eq!(look(&mut HealthMonitor::new(), 5000, 1000), health("pcm_ok"));
}

#[test]
fn a_stall_is_reported_once_until_audio_flows() {
    let mut monitor = HealthMonitor::new();
    assert_eq!(look(&mut monitor, 1000, 6000), stall(5000));
    assert_eq!(look(&mut monitor, 1000, 11000), health("pcm_stalled"));
    assert_eq!(look(&mut monitor, 0, 12000), health("pcm_missing"));
    assert_eq!(look(&mut monitor, 1000, 16000), health("pcm_stalled"));
    assert_eq!(look(&mut monitor, 16000, 16001), health("pcm_ok"));
    assert_eq!(look(&mut monitor, 16000, 21000), stall(5000));
}

#[test]
fn a_long_stall_is_cut() {
    let mut monitor = HealthMonitor::new();
    assert_eq!(look(&mut monitor, 1, u64::MAX), stall(u32::MAX));
    let mut monitor = HealthMonitor::new();
    assert_eq!(look(&mut monitor, 1, u32::MAX as u64 + 1), stall(u32::MAX));
    let mut monitor = HealthMonitor::new();
    assert_eq!(look(&mut monitor, 1, u32::MAX as u64), stall(u32::MAX - 1));
}

#[test]
fn messages_and_end() {
    let mut monitor = HealthMonitor::new();
    let flags = StreamFlags { last_pcm_at: 1, ..StreamFlags::new() };
    let report = monitor.tick(&flags, &ctx(), 9001);
    assert_eq!(report.events[0].metric_message.as_deref(), Some("pcm stalled"));
    assert_eq!(report.events[1].error_message.as_deref(), Some("pcm stalled"));
    assert_eq!(report.events[1].device_id.as_deref(), Some("zone"));
    assert_eq!(report.events[1].session_id.as_deref(), Some("connect-1"));
    let report = monitor.tick(&StreamFlags::new(), &ctx(), 9001);
    assert_eq!(report.events[0].error_message.as_deref(), Some("no pcm received yet"));
    let report = monitor.tick(&flags, &ctx(), 2);
    assert_eq!(report.events[0].error_message.as_deref(), Some("pcm flowing"));
    let report = monitor.tick(&StreamFlags { stopped: true, ..flags }, &ctx(), 9001);
    assert!(report.done && report.events.is_empty());
}
