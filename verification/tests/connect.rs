use node_librespot::connect::{
    enrich, first_lookup, first_lookup_given, lookup_uri, names_lookup_given, on_host_event,
    remember, with_album, with_artist, with_item, with_track, Answers, ItemInfo, Lookup,
};
use node_librespot::events::{ConnectEvent, EventContext};
use node_librespot::playback::{PlaybackMemory, PlayerEvent, PlayerTrace};
use node_librespot::spotify::SpotifyItem;

const ID: &str = "5sWHDYs0csV6RS48xBl0tH";
const URI: &str = "spotify:track:5sWHDYs0csV6RS48xBl0tH";

fn ctx() -> EventContext {
    EventContext {
        device_id: Some("zone".to_string()),
        session_id: Some("connect-1".to_string()),
        track_id: None,
        uri: None,
    }
}

fn track() -> SpotifyItem {
    SpotifyItem { id: ID.to_string(), uri: URI.to_string() }
}

fn info() -> ItemInfo {
    ItemInfo { name: "Title".to_string(), duration_ms: 1234, uri: URI.to_string() }
}

fn answers() -> Answers {
    Answers {
        item: Some(info()),
        artists: Some(2),
        album: Some("Album".to_string()),
        artist: Some("Artist".to_string()),
    }
}

fn playing() -> ConnectEvent {
    ConnectEvent {
        track_id: Some(ID.to_string()),
        uri: Some(URI.to_string()),
        position_ms: Some(10),
        ..ConnectEvent::plain("playing", &ctx())
    }
}

#[test]
fn host_events() {
    let mut trace = PlayerTrace::new();
    let memory = PlaybackMemory::new();
    let report = on_host_event(
        &mut trace,
        &memory,
        &ctx(),
        true,
        &PlayerEvent::Playing { track: track(), position_ms: 10 },
    );
    let lines: Vec<&str> = report.logs.iter().map(|l| l.message.as_str()).collect();
    assert_eq!(lines, ["first player event: playing", "player event playing"]);
    assert_eq!(report.logs[0].scope.as_deref(), Some("connect_host"));
    let payload = report.payload.unwrap();
    assert_eq!(payload.event_type, "playing");
    assert_eq!(payload.uri.as_deref(), Some(URI));
    assert_eq!(payload.position_ms, Some(10));
    for _ in 0..2 {
        let report = on_host_event(
            &mut trace,
            &memory,
            &ctx(),
            true,
            &PlayerEvent::Unavailable { track: track() },
        );
        let lines: Vec<&str> = report.logs.iter().map(|l| l.message.as_str()).collect();
        assert_eq!(lines, ["player event unavailable", "player reported track unavailable"]);
        assert_eq!(report.payload.unwrap().event_type, "unavailable");
    }
    let report = on_host_event(
        &mut trace,
        &memory,
        &ctx(),
        false,
        &PlayerEvent::EndOfTrack { track: track() },
    );
    assert!(report.logs.is_empty());
    assert!(report.payload.is_none());
    assert_eq!(trace.event_count, 4);
}

#[test]
fn lookups_in_order() {
    assert!(matches!(first_lookup(&playing()), Lookup::Item(u) if u == URI));
    let (payload, next) = with_item(playing(), Some(info()));
    assert_eq!(payload.title.as_deref(), Some("Title"));
    assert_eq!(payload.duration_ms, Some(1234));
    assert!(matches!(next, Lookup::Track(u) if u == URI));
    assert!(matches!(with_track(&payload, Some(1)), Lookup::Album));
    assert!(matches!(with_track(&payload, None), Lookup::Nothing));
    let (payload, next) = with_album(payload, Some("Album".to_string()), 1);
    assert_eq!(payload.album.as_deref(), Some("Album"));
    assert!(matches!(next, Lookup::Artist));
    let payload = with_artist(payload, Some("Artist".to_string()));
    assert_eq!(payload.artist.as_deref(), Some("Artist"));
}

#[test]
fn lookups_that_fail_are_skipped() {
    let (payload, next) = with_item(playing(), None);
    assert_eq!(payload.title, None);
    assert!(matches!(next, Lookup::Track(_)));
    let (payload, next) = with_album(payload, None, 0);
    assert_eq!(payload.album, None);
    assert!(matches!(next, Lookup::Nothing));
    assert_eq!(with_artist(payload, None).artist, None);
    let known = ConnectEvent { album: Some("B".to_string()), ..playing() };
    assert!(matches!(with_track(&known, Some(1)), Lookup::Artist));
    assert!(matches!(with_track(&known, Some(0)), Lookup::Nothing));
}

#[test]
fn payloads_without_a_readable_uri() {
    let volume = ConnectEvent::plain("volume", &ctx());
    assert!(lookup_uri(&volume).is_none());
    assert!(matches!(first_lookup(&volume), Lookup::Nothing));
    let by_id = ConnectEvent { uri: None, ..playing() };
    assert_eq!(lookup_uri(&by_id).as_deref(), Some(URI));
    assert!(matches!(first_lookup(&by_id), Lookup::Item(u) if u == URI));
    let odd = ConnectEvent { uri: Some("http://x".to_string()), ..playing() };
    assert!(matches!(first_lookup(&odd), Lookup::Nothing));
    assert!(matches!(first_lookup_given(&odd, true), Lookup::Item(u) if u == "http://x"));
    assert!(matches!(first_lookup_given(&playing(), false), Lookup::Nothing));
    let titled = ConnectEvent {
        title: Some("T".to_string()),
        duration_ms: Some(1),
        ..playing()
    };
    assert!(matches!(first_lookup(&titled), Lookup::Track(_)));
    let complete = ConnectEvent {
        artist: Some("A".to_string()),
        album: Some("B".to_string()),
        ..titled
    };
    assert!(matches!(first_lookup(&complete), Lookup::Nothing));
    assert!(matches!(names_lookup_given(&playing(), true), Lookup::Track(_)));
}

#[test]
fn enriched_payload() {
    let filled = enrich(playing(), answers());
    assert_eq!(filled.title.as_deref(), Some("Title"));
    assert_eq!(filled.artist.as_deref(), Some("Artist"));
    assert_eq!(filled.album.as_deref(), Some("Album"));
    assert_eq!(filled.duration_ms, Some(1234));
    assert_eq!(filled.event_type, "playing");
    assert_eq!(filled.position_ms, Some(10));
    assert_eq!(filled.track_id.as_deref(), Some(ID));
}

#[test]
fn enrichment_stops_where_the_catalogue_does() {
    let filled = enrich(playing(), Answers { artists: None, ..answers() });
    assert_eq!(filled.title.as_deref(), Some("Title"));
    assert_eq!(filled.artist, None);
    assert_eq!(filled.album, None);
    let filled = enrich(playing(), Answers { artists: Some(0), ..answers() });
    assert_eq!(filled.album.as_deref(), Some("Album"));
    assert_eq!(filled.artist, None);
    // The canonical URI of the catalogue is the one that the names are looked up under.
    let bad = ItemInfo { uri: "nonsense".to_string(), ..info() };
    let filled = enrich(playing(), Answers { item: Some(bad), ..answers() });
    assert_eq!(filled.uri.as_deref(), Some("nonsense"));
    assert_eq!(filled.album, None);
    let volume = enrich(ConnectEvent::plain("volume", &ctx()), answers());
    assert_eq!(volume.title, None);
    assert_eq!(volume.album, None);
}

#[test]
fn host_remembers_what_it_passed_on() {
    let mut memory = PlaybackMemory::new();
    remember(&mut memory, &ConnectEvent { duration_ms: Some(9), ..ConnectEvent::plain("loading", &ctx()) });
    assert_eq!(memory, PlaybackMemory::new());
    remember(&mut memory, &playing());
    assert_eq!(memory.last_position_ms, Some(10));
    assert_eq!(memory.last_duration_ms, None);
    let mut trace = PlayerTrace::new();
    let end = PlayerEvent::EndOfTrack { track: track() };
    assert!(on_host_event(&mut trace, &memory, &ctx(), false, &end).payload.is_none());
    let corrected = ConnectEvent {
        duration_ms: Some(99),
        position_ms: None,
        ..ConnectEvent::plain("position_correction", &ctx())
    };
    remember(&mut memory, &corrected);
    assert_eq!(memory.last_position_ms, Some(10));
    assert_eq!(memory.last_duration_ms, Some(99));
    let payload = on_host_event(&mut trace, &memory, &ctx(), false, &end).payload.unwrap();
    assert_eq!(payload.event_type, "end_of_track");
    assert_eq!(payload.position_ms, Some(10));
    assert_eq!(payload.duration_ms, Some(99));
    remember(&mut memory, &ConnectEvent { position_ms: Some(5), ..ConnectEvent::plain("paused", &ctx()) });
    assert_eq!(memory.last_position_ms, Some(5));
    assert_eq!(memory.last_duration_ms, Some(99));
}
