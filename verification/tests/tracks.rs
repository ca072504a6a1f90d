use node_librespot::download::{
    accept_number, download_started, fetch_failed, on_download_event, passes_on, DownloadAction, DownloadEvent,
    DownloadTrackOpts, FetchFailure, CHUNK_BYTES,
};
use node_librespot::formats::{AudioFileFormat, Bitrate};
use node_librespot::handles::{ConnectHandle, HandleCommand, StreamHandle};
use node_librespot::session::LibrespotSession;
use node_librespot::spotify::SpotifyItem;
use node_librespot::tracks::{accept_item, StreamTrackOpts};

const URI: &str = "spotify:track:5sWHDYs0csV6RS48xBl0tH";

fn session() -> LibrespotSession {
    LibrespotSession { device_id: "zone".to_string() }
}

fn stream_opts(uri: &str) -> StreamTrackOpts {
    StreamTrackOpts {
        uri: uri.to_string(),
        start_position_ms: None,
        bitrate: None,
        output: None,
        emit_events: None,
    }
}

fn download_opts(uri: &str) -> DownloadTrackOpts {
    DownloadTrackOpts { uri: uri.to_string(), bitrate: None }
}

#[test]
fn stream_request() {
    let request = session().stream_track(stream_opts(URI)).unwrap();
    assert_eq!(request.uri, URI);
    assert_eq!(request.item.id, "5sWHDYs0csV6RS48xBl0tH");
    assert_eq!(request.item.uri, URI);
    assert_eq!(request.device_id, "zone");
    assert_eq!(request.start_position_ms, 0);
    assert_eq!(request.bitrate, Bitrate::Bitrate320);
    assert!(request.emit_events);
    let request = session()
        .stream_track(StreamTrackOpts {
            start_position_ms: Some(5),
            bitrate: Some(160),
            emit_events: Some(false),
            ..stream_opts("spotify:episode:5sWHDYs0csV6RS48xBl0tH")
        })
        .unwrap();
    assert_eq!(request.item.uri, "spotify:episode:5sWHDYs0csV6RS48xBl0tH");
    assert_eq!(request.start_position_ms, 5);
    assert_eq!(request.bitrate, Bitrate::Bitrate160);
    assert!(!request.emit_events);
}

#[test]
fn stream_start() {
    let request = session().stream_track(stream_opts(URI)).unwrap();
    let start = request.begin("stream-9".to_string(), true);
    assert_eq!(start.ctx.device_id.as_deref(), Some("zone"));
    assert_eq!(start.ctx.session_id.as_deref(), Some("stream-9"));
    assert_eq!(start.ctx.track_id.as_deref(), Some("5sWHDYs0csV6RS48xBl0tH"));
    assert_eq!(start.ctx.uri.as_deref(), Some(URI));
    assert_eq!(start.logs.len(), 1);
    assert_eq!(start.logs[0].level, "info");
    assert_eq!(start.logs[0].message, format!("stream_track start uri={}", URI));
    assert_eq!(start.logs[0].scope.as_deref(), Some("stream_track"));
    assert_eq!(start.logs[0].session_id.as_deref(), Some("stream-9"));
    assert!(request.begin("stream-9".to_string(), false).logs.is_empty());
}

#[test]
fn refused_uris() {
    assert_eq!(session().stream_track(stream_opts("")).unwrap_err().reason, "uri is required");
    assert_eq!(session().download_track(download_opts("")).unwrap_err().reason, "uri is required");
    for uri in [" ", "spotify", "spotify:track", "http:track:5sWHDYs0csV6RS48xBl0tH", "spotify:track:x"] {
        let reason = session().stream_track(stream_opts(uri)).unwrap_err().reason;
        let expected = format!(
            "invalid spotify uri: {:?}",
            librespot_core::SpotifyUri::from_uri(uri).unwrap_err()
        );
        assert_eq!(reason, expected);
        assert_eq!(session().download_track(download_opts(uri)).unwrap_err().reason, expected);
    }
}

#[test]
fn requests_for_a_given_item() {
    let item = || Ok(SpotifyItem { id: "i".to_string(), uri: "u".to_string() });
    let request = session().stream_track_given(stream_opts("x"), item()).unwrap();
    assert_eq!(request.item.id, "i");
    assert_eq!(request.uri, "x");
    let request = session().download_track_given(download_opts("x"), item()).unwrap();
    assert_eq!(request.item.uri, "u");
    assert_eq!(accept_item("", item()).unwrap_err().reason, "uri is required");
    assert_eq!(
        accept_item("x", Err("why".to_string())).unwrap_err().reason,
        "invalid spotify uri: why"
    );
}

#[test]
fn download_request() {
    let request = session()
        .download_track(DownloadTrackOpts { bitrate: Some(96), ..download_opts(URI) })
        .unwrap();
    let logs = request.begin("download-2".to_string(), true);
    assert_eq!(logs.len(), 1);
    assert_eq!(logs[0].level, "info");
    assert_eq!(logs[0].message, format!("download_track start uri={}", URI));
    assert_eq!(logs[0].scope.as_deref(), Some("download_track"));
    assert_eq!(logs[0].device_id.as_deref(), Some("zone"));
    assert_eq!(logs[0].session_id.as_deref(), Some("download-2"));
    assert!(request.begin("download-2".to_string(), false).is_empty());
    let files = vec![(AudioFileFormat::OggVorbis96, [7; 20]), (AudioFileFormat::OggVorbis320, [8; 20])];
    let choice = request.choose_file(Ok(files)).unwrap();
    assert_eq!(choice.format, AudioFileFormat::OggVorbis96);
    assert_eq!(choice.file_id, [7; 20]);
    assert_eq!(choice.bytes_per_second, 12288);
    assert_eq!(request.choose_file(Ok(vec![])).unwrap_err().reason, "no audio files available");
    assert_eq!(
        request.choose_file(Err("NotFound".to_string())).unwrap_err().reason,
        "failed to load audio item: NotFound"
    );
}

#[test]
fn track_numbers() {
    let number = |uri: &str| session().download_track(download_opts(uri)).unwrap().track_number();
    assert_eq!(number(URI).unwrap(), 238762092608182713602505436543891614649);
    let reason = number("spotify:local:a:b:c:1").unwrap_err().reason;
    assert!(reason.starts_with("invalid spotify id: "), "{}", reason);
    assert_eq!(accept_number(Ok(1)).unwrap(), 1);
    assert_eq!(accept_number(Err("e".to_string())).unwrap_err().reason, "invalid spotify id: e");
}

#[test]
fn fetch_outcomes() {
    assert_eq!(
        download_started(Err(FetchFailure::NoFile("gone".to_string()))).unwrap_err().reason,
        "failed to open audio file: gone"
    );
    assert_eq!(
        download_started(Err(FetchFailure::NoKey("refused".to_string()))).unwrap_err().reason,
        "audio key unavailable: refused"
    );
    assert_eq!(fetch_failed(FetchFailure::NoKey("x".to_string())).reason, "audio key unavailable: x");
    let mut handle = download_started(Ok(())).unwrap();
    for _ in 0..2 {
        assert_eq!(handle.stop(), [HandleCommand::RaiseStopFlag, HandleCommand::AbortTask]);
    }
}

fn download(file: &[u8], stop_after: usize, refuse_after: usize) -> Vec<u8> {
    let mut rest = file;
    let mut delivered: Vec<u8> = Vec::new();
    let mut rounds = 0;
    let mut queued: Vec<u8> = Vec::new();
    let mut event = DownloadEvent::Round { stopped: stop_after == 0 };
    loop {
        let report = on_download_event(event, true);
        assert!(report.logs.is_empty());
        event = match report.action {
            DownloadAction::End => return delivered,
            DownloadAction::NextRound => {
                delivered.append(&mut queued);
                rounds += 1;
                DownloadEvent::Round { stopped: rounds >= stop_after }
            }
            DownloadAction::Read => {
                let n = rest.len().min(CHUNK_BYTES);
                let bytes = rest[..n].to_vec();
                rest = &rest[n..];
                DownloadEvent::Read { bytes }
            }
            DownloadAction::Queue { bytes } => {
                assert!(!bytes.is_empty() && bytes.len() <= CHUNK_BYTES);
                queued = bytes;
                DownloadEvent::Queued { accepted: rounds < refuse_after }
            }
        };
    }
}

#[test]
fn a_download_comes_whole() {
    assert_eq!(CHUNK_BYTES, 32 * 1024);
    let file: Vec<u8> = (0..100_000u32).map(|i| (i % 251) as u8).collect();
    assert_eq!(download(&file, usize::MAX, usize::MAX), file);
    assert_eq!(download(&[], usize::MAX, usize::MAX), Vec::<u8>::new());
    assert_eq!(download(&file, 2, usize::MAX), &file[..65536]);
    assert_eq!(download(&file, 0, usize::MAX), Vec::<u8>::new());
    assert_eq!(download(&file, usize::MAX, 1), &file[..32768]);
    for (stop_after, refuse_after) in [(0, 0), (1, 3), (3, 1), (2, 2), (9, 0)] {
        assert!(file.starts_with(&download(&file, stop_after, refuse_after)));
    }
}

#[test]
fn a_failed_read_ends_a_download() {
    let report = on_download_event(DownloadEvent::ReadFailed { text: "Kind".to_string() }, true);
    assert!(matches!(report.action, DownloadAction::End));
    assert_eq!(report.logs.len(), 1);
    assert_eq!(report.logs[0].level, "error");
    assert_eq!(report.logs[0].message, "read error: Kind");
    assert_eq!(report.logs[0].scope.as_deref(), Some("download_track"));
    assert_eq!(report.logs[0].device_id, None);
    assert_eq!(report.logs[0].session_id, None);
    let report = on_download_event(DownloadEvent::ReadFailed { text: "Kind".to_string() }, false);
    assert!(report.logs.is_empty());
    assert!(passes_on(false));
    assert!(!passes_on(true));
}

#[test]
fn stream_handle() {
    let mut handle = StreamHandle::open();
    assert_eq!(handle.sample_rate(), 44100);
    assert_eq!(handle.channels(), 2);
    assert_eq!(handle.stop(), [HandleCommand::SignalStop]);
    assert!(handle.stop().is_empty());
}

#[test]
fn connect_handle() {
    let mut handle = ConnectHandle::open();
    assert_eq!(handle.play(), HandleCommand::Play);
    assert_eq!(handle.pause(), HandleCommand::Pause);
    assert_eq!(handle.next(), HandleCommand::Next);
    assert_eq!(handle.prev(), HandleCommand::Prev);
    let again =
        [HandleCommand::RaiseStopFlag, HandleCommand::Shutdown, HandleCommand::AbortTask];
    assert_eq!(
        handle.shutdown(),
        [
            HandleCommand::RaiseStopFlag,
            HandleCommand::SignalStop,
            HandleCommand::Shutdown,
            HandleCommand::AbortTask,
        ]
    );
    assert_eq!(handle.close(), again);
    assert_eq!(handle.stop(), again);
}
