//! Requests to stream a track.

use vstd::prelude::*;

use crate::error::Error;
use crate::events::{log_views, EventContext, EventContextView, LogEvent};
use crate::formats::{bitrate_for, stream_bitrate, Bitrate};
use crate::handles::{CHANNELS, SAMPLE_RATE};
use crate::logging::{log_line, push_log};
use crate::session::LibrespotSession;
use crate::sink::{fresh_pacer, AudioFormat, ChannelSink, SinkConfig};
use crate::spotify::{item_view, read_uri, spotify_uri, SpotifyItem, SpotifyItemView};
use crate::stream::stream_scope;
use crate::text::{clone_opt, concat};

verus! {

/// Options for streaming a track.
#[derive(Debug)]
pub struct StreamTrackOpts {
    pub uri: String,
    pub start_position_ms: Option<u32>,
    pub bitrate: Option<u32>,
    pub output: Option<String>,
    pub emit_events: Option<bool>,
}

/// The item that a caller names by `uri`, or the reason why it is refused. `item` is what reading
/// the URI gives.
pub open spec fn item_for(
    uri: Seq<char>,
    item: Result<(Seq<char>, Seq<char>), Seq<char>>,
) -> Result<SpotifyItemView, Seq<char>> {
    if uri.len() == 0 {
        Err("uri is required"@)
    } else {
        match item {
            Ok((id, uri)) => Ok(SpotifyItemView { id, uri }),
            Err(text) => Err("invalid spotify uri: "@ + text),
        }
    }
}

/// An item, or the reason why there is none.
pub open spec fn named_item_view(r: Result<SpotifyItem, Error>) -> Result<
    SpotifyItemView,
    Seq<char>,
> {
    match r {
        Ok(item) => Ok(item@),
        Err(e) => Err(e@),
    }
}

/// The item that a caller names by `uri`, where `item` is what reading the URI gives.
pub fn accept_item(uri: &str, item: Result<SpotifyItem, String>) -> (r: Result<SpotifyItem, Error>)
    ensures
        named_item_view(r) == item_for(uri@, item_view(item)),
{
    if uri.is_empty() {
        return Err(Error::from_reason("uri is required"));
    }
    match item {
        Ok(item) => Ok(item),
        Err(text) => Err(Error::with_detail("invalid spotify uri: ", text.as_str())),
    }
}

/// A stream that is to be started.
#[derive(Debug)]
pub struct StreamRequest {
    /// The URI as the caller gave it.
    pub uri: String,
    pub item: SpotifyItem,
    pub device_id: String,
    pub start_position_ms: u32,
    pub bitrate: Bitrate,
    /// Whether the player's events are taken in at all.
    pub emit_events: bool,
}

/// A [`StreamRequest`] as mathematical values.
#[verifier::ext_equal]
pub struct StreamRequestView {
    pub uri: Seq<char>,
    pub item: SpotifyItemView,
    pub device_id: Seq<char>,
    pub start_position_ms: u32,
    pub bitrate: Bitrate,
    pub emit_events: bool,
}

impl View for StreamRequest {
    type V = StreamRequestView;

    open spec fn view(&self) -> StreamRequestView {
        StreamRequestView {
            uri: self.uri@,
            item: self.item@,
            device_id: self.device_id@,
            start_position_ms: self.start_position_ms,
            bitrate: self.bitrate,
            emit_events: self.emit_events,
        }
    }
}

/// A request, or the reason why there is none.
pub open spec fn stream_request_view(r: Result<StreamRequest, Error>) -> Result<
    StreamRequestView,
    Seq<char>,
> {
    match r {
        Ok(request) => Ok(request@),
        Err(e) => Err(e@),
    }
}

/// The stream that options ask for, or the reason why they are refused. `item` is what reading the
/// URI gives.
pub open spec fn stream_for(
    device_id: Seq<char>,
    opts: StreamTrackOpts,
    item: Result<(Seq<char>, Seq<char>), Seq<char>>,
) -> Result<StreamRequestView, Seq<char>> {
    match item_for(opts.uri@, item) {
        Ok(item) => Ok(
            StreamRequestView {
                uri: opts.uri@,
                item,
                device_id,
                start_position_ms: match opts.start_position_ms {
                    Some(ms) => ms,
                    None => 0,
                },
                bitrate: bitrate_for(opts.bitrate),
                emit_events: match opts.emit_events {
                    Some(emit) => emit,
                    None => true,
                },
            },
        ),
        Err(reason) => Err(reason),
    }
}

impl LibrespotSession {
    /// The stream that options ask for, where `item` is what reading the URI gives.
    pub fn stream_track_given(
        &self,
        opts: StreamTrackOpts,
        item: Result<SpotifyItem, String>,
    ) -> (r: Result<StreamRequest, Error>)
        ensures
            stream_request_view(r) == stream_for(self.device_id@, opts, item_view(item)),
    {
        match accept_item(opts.uri.as_str(), item) {
            Ok(item) => Ok(
                StreamRequest {
                    uri: opts.uri,
                    item,
                    device_id: self.device_id.clone(),
                    start_position_ms: match opts.start_position_ms {
                        Some(ms) => ms,
                        None => 0,
                    },
                    bitrate: stream_bitrate(opts.bitrate),
                    emit_events: match opts.emit_events {
                        Some(emit) => emit,
                        None => true,
                    },
                },
            ),
            Err(e) => Err(e),
        }
    }

    /// Streams a track or an episode as 16 bit little-endian audio.
    pub fn stream_track(&self, opts: StreamTrackOpts) -> (r: Result<StreamRequest, Error>)
        ensures
            stream_request_view(r) == stream_for(
                self.device_id@,
                opts,
                spotify_uri(opts.uri@),
            ),
    {
        let item = read_uri(opts.uri.as_str());
        self.stream_track_given(opts, item)
    }
}

/// A stream that starts.
#[derive(Debug)]
pub struct StreamStart {
    /// What all events and log lines of the stream speak of.
    pub ctx: EventContext,
    pub logs: Vec<LogEvent>,
}

/// The context of a stream's events.
pub open spec fn stream_context(request: StreamRequestView, session_id: Seq<char>) -> EventContextView {
    EventContextView {
        device_id: Some(request.device_id),
        session_id: Some(session_id),
        track_id: Some(request.item.id),
        uri: Some(request.uri),
    }
}

impl StreamRequest {
    /// Starts the stream under the given session identifier.
    pub fn begin(&self, session_id: String, logging: bool) -> (start: StreamStart)
        ensures
            start.ctx@ == stream_context(self@, session_id@),
            log_views(start.logs@) == log_line(
                logging,
                "info"@,
                "stream_track start uri="@ + self@.uri,
                stream_scope(),
                start.ctx@,
            ),
    {
        let ctx = EventContext {
            device_id: Some(self.device_id.clone()),
            session_id: Some(session_id),
            track_id: Some(self.item.id.clone()),
            uri: Some(self.uri.clone()),
        };
        let message = concat("stream_track start uri=", self.uri.as_str());
        let mut logs: Vec<LogEvent> = Vec::new();
        assert(log_views(logs@) =~= Seq::empty());
        push_log(&mut logs, logging, "info", message.as_str(), "stream_track", &ctx);
        assert(log_views(logs@) =~= log_line(
            logging,
            "info"@,
            message@,
            stream_scope(),
            ctx@,
        ));
        StreamStart { ctx, logs }
    }
}

fn copy_context(ctx: &EventContext) -> (r: EventContext)
    ensures
        r@ == ctx@,
{
    EventContext {
        device_id: clone_opt(&ctx.device_id),
        session_id: clone_opt(&ctx.session_id),
        track_id: clone_opt(&ctx.track_id),
        uri: clone_opt(&ctx.uri),
    }
}

/// The sink delivers 16 bit stereo audio at the usual rate, under the given scope and context, and
/// has seen no audio yet.
pub open spec fn new_sink(sink: ChannelSink, scope: Seq<char>, ctx: EventContextView) -> bool {
    &&& sink.config.format == AudioFormat::S16
    &&& sink.config.sample_rate == SAMPLE_RATE
    &&& sink.config.channels == CHANNELS
    &&& sink.config.scope@ == scope
    &&& sink.config.ctx@ == ctx
    &&& sink.pacer == fresh_pacer()
    &&& sink.pacer.wf()
    &&& !sink.first_chunk_logged
}

fn open_sink(scope: &str, ctx: &EventContext) -> (sink: ChannelSink)
    ensures
        new_sink(sink, scope@, ctx@),
{
    ChannelSink::new(
        SinkConfig {
            format: AudioFormat::S16,
            sample_rate: SAMPLE_RATE,
            channels: CHANNELS,
            scope: scope.to_owned(),
            ctx: copy_context(ctx),
        },
    )
}

/// A sink for the player of a stream, and the line that logs it.
pub fn open_stream_sink(ctx: &EventContext, logging: bool) -> (r: (ChannelSink, Vec<LogEvent>))
    ensures
        new_sink(r.0, stream_scope(), ctx@),
        log_views(r.1@) == log_line(logging, "debug"@, "sink created"@, stream_scope(), ctx@),
{
    let mut logs: Vec<LogEvent> = Vec::new();
    assert(log_views(logs@) =~= Seq::empty());
    push_log(&mut logs, logging, "debug", "sink created", "stream_track", ctx);
    assert(log_views(logs@) =~= log_line(
        logging,
        "debug"@,
        "sink created"@,
        stream_scope(),
        ctx@,
    ));
    (open_sink("stream_track", ctx), logs)
}

/// A sink for the player of a connect host.
pub fn open_host_sink(ctx: &EventContext) -> (sink: ChannelSink)
    ensures
        new_sink(sink, crate::connect::host_scope(), ctx@),
{
    open_sink("connect_host", ctx)
}

/// The line that logs that the player has been told to load and play the track.
pub fn player_started(ctx: &EventContext, logging: bool) -> (logs: Vec<LogEvent>)
    ensures
        log_views(logs@) == log_line(
            logging,
            "info"@,
            "player.load + player.play invoked"@,
            stream_scope(),
            ctx@,
        ),
{
    let mut logs: Vec<LogEvent> = Vec::new();
    assert(log_views(logs@) =~= Seq::empty());
    push_log(&mut logs, logging, "info", "player.load + player.play invoked", "stream_track", ctx);
    assert(log_views(logs@) =~= log_line(
        logging,
        "info"@,
        "player.load + player.play invoked"@,
        stream_scope(),
        ctx@,
    ));
    logs
}

} // verus!
