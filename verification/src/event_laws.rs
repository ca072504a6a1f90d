//! What payloads say: each event and each log line, field by field.

use vstd::prelude::*;

use crate::events::{
    error_event, event_views, log_views, metric_event, number_value, plain_event, property_views,
    text_value, volume_number, ConnectEvent, EventContext, EventContextView, LogEvent, Property,
    PropertyValue, PropertyValueView,
};
use crate::logging::{log_line, str_view};
use crate::playback::{
    about, about_nothing, event_name_of, payload_view, player_payload, trace_lines, PlaybackMemory,
    PlayerEvent, PlayerEventView, PlayerTrace,
};
use crate::spotify::{SpotifyItem, SpotifyItemView};
use crate::text::opt_view;

verus! {

/// An optional text is viewed as itself.
pub proof fn law_optional_text(text: String)
    ensures
        opt_view(Some(text)) == Some(text@),
        opt_view(None) == None::<Seq<char>>,
{
}

/// What is stated of an event is stated of each of its fields.
pub proof fn law_event_fields(event: ConnectEvent)
    ensures
        event@.event_type == event.event_type@,
        event@.device_id == opt_view(event.device_id),
        event@.session_id == opt_view(event.session_id),
        event@.track_id == opt_view(event.track_id),
        event@.uri == opt_view(event.uri),
        event@.title == opt_view(event.title),
        event@.artist == opt_view(event.artist),
        event@.album == opt_view(event.album),
        event@.duration_ms == event.duration_ms,
        event@.position_ms == event.position_ms,
        event@.volume == event.volume,
        event@.error_code == opt_view(event.error_code),
        event@.error_message == opt_view(event.error_message),
        event@.metric_name == opt_view(event.metric_name),
        event@.metric_value_ms == event.metric_value_ms,
        event@.metric_message == opt_view(event.metric_message),
{
}

/// What is stated of a log line is stated of each of its fields.
pub proof fn law_log_fields(log: LogEvent)
    ensures
        log@.level == log.level@,
        log@.message == log.message@,
        log@.scope == opt_view(log.scope),
        log@.device_id == opt_view(log.device_id),
        log@.session_id == opt_view(log.session_id),
{
}

/// What is stated of a context is stated of each of its fields.
pub proof fn law_context_fields(ctx: EventContext)
    ensures
        ctx@.device_id == opt_view(ctx.device_id),
        ctx@.session_id == opt_view(ctx.session_id),
        ctx@.track_id == opt_view(ctx.track_id),
        ctx@.uri == opt_view(ctx.uri),
{
}

/// What is stated of a player event is stated of its kind, its track, its position and its volume.
pub proof fn law_player_event_fields(event: PlayerEvent)
    ensures
        match event {
            PlayerEvent::Playing { track, position_ms } => event@ is Playing && track_of(event@)
                == Some(track@) && position_of(event@) == Some(position_ms),
            PlayerEvent::Paused { track, position_ms } => event@ is Paused && track_of(event@)
                == Some(track@) && position_of(event@) == Some(position_ms),
            PlayerEvent::Loading { track, position_ms } => event@ is Loading && track_of(event@)
                == Some(track@) && position_of(event@) == Some(position_ms),
            PlayerEvent::PositionCorrection { track, position_ms } => event@ is PositionCorrection
                && track_of(event@) == Some(track@) && position_of(event@) == Some(position_ms),
            PlayerEvent::Stopped { track } => event@ is Stopped && track_of(event@) == Some(track@),
            PlayerEvent::EndOfTrack { track } => event@ is EndOfTrack && track_of(event@) == Some(
                track@,
            ),
            PlayerEvent::Unavailable { track } => event@ is Unavailable && track_of(event@) == Some(
                track@,
            ),
            PlayerEvent::VolumeChanged { volume } => event@ is VolumeChanged && event@->volume
                == volume,
            PlayerEvent::Preloading => event@ is Preloading,
            PlayerEvent::TimeToPreloadNextTrack => event@ is TimeToPreloadNextTrack,
            PlayerEvent::PlayRequestIdChanged => event@ is PlayRequestIdChanged,
            PlayerEvent::Other => event@ is Other,
        },
{
}

/// What is stated of an item is stated of its identifier and its URI.
pub proof fn law_item_fields(item: SpotifyItem)
    ensures
        item@.id == item.id@,
        item@.uri == item.uri@,
{
}

/// What is stated of a list of events or log lines is stated of each of them, in their order.
pub proof fn law_lists(events: Seq<ConnectEvent>, logs: Seq<LogEvent>, i: int)
    ensures
        event_views(events).len() == events.len(),
        log_views(logs).len() == logs.len(),
        0 <= i < events.len() ==> event_views(events)[i] == events[i]@,
        0 <= i < logs.len() ==> log_views(logs)[i] == logs[i]@,
{
}

/// A property holds the very text or number, and is absent where there is none.
pub proof fn law_property_values(text: Seq<char>, number: u32, volume: u16)
    ensures
        text_value(Some(text)) == Some(PropertyValueView::Text(text)),
        text_value(None) is None,
        number_value(Some(number)) == Some(PropertyValueView::Number(number)),
        number_value(None) is None,
        volume_number(Some(volume)) is Some,
        volume_number(Some(volume))->0 == volume,
        volume_number(None) is None,
{
}

/// An event says where it comes from, and nothing that it was not given.
pub proof fn law_plain_event(event_type: Seq<char>, ctx: EventContextView)
    ensures
        ({
            let e = plain_event(event_type, ctx);
            &&& e.event_type == event_type
            &&& e.device_id == ctx.device_id
            &&& e.session_id == ctx.session_id
            &&& e.track_id == ctx.track_id
            &&& e.uri == ctx.uri
            &&& e.title is None
            &&& e.artist is None
            &&& e.album is None
            &&& e.duration_ms is None
            &&& e.position_ms is None
            &&& e.volume is None
            &&& e.error_code is None
            &&& e.error_message is None
            &&& e.metric_name is None
            &&& e.metric_value_ms is None
            &&& e.metric_message is None
        }),
{
}

/// An error carries its code and its message; a metric its name, value and message; each says where
/// it comes from, and nothing else.
pub proof fn law_error_and_metric(
    ctx: EventContextView,
    code: Seq<char>,
    message: Seq<char>,
    value_ms: Option<u32>,
    note: Option<Seq<char>>,
)
    ensures
        ({
            let e = error_event(ctx, code, message);
            &&& e.event_type == "error"@
            &&& e.error_code == Some(code)
            &&& e.error_message == Some(message)
            &&& e.device_id == ctx.device_id
            &&& e.session_id == ctx.session_id
            &&& e.track_id == ctx.track_id
            &&& e.uri == ctx.uri
            &&& e.title is None && e.artist is None && e.album is None
            &&& e.duration_ms is None && e.position_ms is None && e.volume is None
            &&& e.metric_name is None && e.metric_value_ms is None && e.metric_message is None
        }),
        ({
            let e = metric_event(ctx, code, value_ms, note);
            &&& e.event_type == "metric"@
            &&& e.metric_name == Some(code)
            &&& e.metric_value_ms == value_ms
            &&& e.metric_message == note
            &&& e.device_id == ctx.device_id
            &&& e.session_id == ctx.session_id
            &&& e.track_id == ctx.track_id
            &&& e.uri == ctx.uri
            &&& e.title is None && e.artist is None && e.album is None
            &&& e.duration_ms is None && e.position_ms is None && e.volume is None
            &&& e.error_code is None && e.error_message is None
        }),
{
}

/// To speak of a track is to name its identifier and its URI; the device and the session stay.
pub proof fn law_about(ctx: EventContextView, track: SpotifyItemView)
    ensures
        about(ctx, track).track_id == Some(track.id),
        about(ctx, track).uri == Some(track.uri),
        about(ctx, track).device_id == ctx.device_id,
        about(ctx, track).session_id == ctx.session_id,
        about_nothing(ctx).track_id is None,
        about_nothing(ctx).uri is None,
        about_nothing(ctx).device_id == ctx.device_id,
        about_nothing(ctx).session_id == ctx.session_id,
{
}

/// Whoever listens gets one line with the given level, message and scope, from the device and the
/// session that log; where nobody listens there is none.
pub proof fn law_log_line(
    level: Seq<char>,
    message: Seq<char>,
    scope: Seq<char>,
    ctx: EventContextView,
)
    ensures
        log_line(false, level, message, scope, ctx).len() == 0,
        log_line(true, level, message, scope, ctx).len() == 1,
        ({
            let line = log_line(true, level, message, scope, ctx)[0];
            &&& line.level == level
            &&& line.message == message
            &&& line.scope == Some(scope)
            &&& line.device_id == ctx.device_id
            &&& line.session_id == ctx.session_id
        }),
{
}

/// The position that a player event carries.
pub open spec fn position_of(event: PlayerEventView) -> Option<u32> {
    match event {
        PlayerEventView::Playing { position_ms, .. } => Some(position_ms),
        PlayerEventView::Paused { position_ms, .. } => Some(position_ms),
        PlayerEventView::Loading { position_ms, .. } => Some(position_ms),
        PlayerEventView::PositionCorrection { position_ms, .. } => Some(position_ms),
        _ => None,
    }
}

/// The track that a player event speaks of.
pub open spec fn track_of(event: PlayerEventView) -> Option<SpotifyItemView> {
    match event {
        PlayerEventView::Playing { track, .. } => Some(track),
        PlayerEventView::Paused { track, .. } => Some(track),
        PlayerEventView::Loading { track, .. } => Some(track),
        PlayerEventView::PositionCorrection { track, .. } => Some(track),
        PlayerEventView::Stopped { track } => Some(track),
        PlayerEventView::Unavailable { track } => Some(track),
        PlayerEventView::EndOfTrack { track } => Some(track),
        _ => None,
    }
}

/// What is passed on of a player event is what the player said: an event that carries a position is
/// passed on with that position, one about a track with that track, a change of volume with that
/// volume, and each under the name of the event; nothing else is filled in.
pub proof fn law_payload_says_what_the_player_said(
    memory: PlaybackMemory,
    ctx: EventContextView,
    event: PlayerEventView,
)
    requires
        !(event is EndOfTrack),
    ensures
        ({
            let payload = player_payload(memory, ctx, event);
            let p = payload->0;
            &&& payload is Some <==> track_of(event) is Some || event is VolumeChanged
            &&& payload is Some ==> {
                &&& p.event_type == event_name_of(event)
                &&& p.position_ms == position_of(event)
                &&& track_of(event) is Some ==> p.track_id == Some((track_of(event)->0).id) && p.uri
                    == Some((track_of(event)->0).uri)
                &&& track_of(event) is None ==> p.track_id is None && p.uri is None
                &&& p.volume == (match event {
                    PlayerEventView::VolumeChanged { volume } => Some(volume),
                    _ => None,
                })
                &&& p.device_id == ctx.device_id
                &&& p.session_id == ctx.session_id
                &&& p.title is None && p.artist is None && p.album is None
                &&& p.duration_ms is None
                &&& p.error_code is None && p.error_message is None
                &&& p.metric_name is None && p.metric_value_ms is None && p.metric_message is None
            }
        }),
{
}

/// The positions, one kind of event at a time: whatever position the player tells is passed on.
pub proof fn law_positions_passed_on(
    memory: PlaybackMemory,
    ctx: EventContextView,
    track: SpotifyItemView,
    position_ms: u32,
)
    ensures
        (player_payload(memory, ctx, PlayerEventView::Playing { track, position_ms })->0).position_ms
            == Some(position_ms),
        (player_payload(memory, ctx, PlayerEventView::Paused { track, position_ms })->0).position_ms
            == Some(position_ms),
        (player_payload(memory, ctx, PlayerEventView::Loading { track, position_ms })->0).position_ms
            == Some(position_ms),
        (player_payload(
            memory,
            ctx,
            PlayerEventView::PositionCorrection { track, position_ms },
        )->0).position_ms == Some(position_ms),
{
}

/// An end of track that is passed on carries the position and the duration that are remembered, and
/// speaks of the track that ended. It is passed on exactly where something has played and a
/// duration is remembered.
pub proof fn law_end_payload(memory: PlaybackMemory, ctx: EventContextView, track: SpotifyItemView)
    ensures
        ({
            let payload = player_payload(memory, ctx, PlayerEventView::EndOfTrack { track });
            let p = payload->0;
            &&& payload is Some <==> memory.saw_playing && memory.last_duration_ms is Some
            &&& payload is Some ==> {
                &&& p.event_type == "end_of_track"@
                &&& p.track_id == Some(track.id)
                &&& p.uri == Some(track.uri)
                &&& p.position_ms == memory.last_position_ms
                &&& p.duration_ms == memory.last_duration_ms
                &&& p.device_id == ctx.device_id
                &&& p.session_id == ctx.session_id
                &&& p.volume is None && p.title is None && p.artist is None && p.album is None
                &&& p.error_code is None && p.error_message is None
                &&& p.metric_name is None && p.metric_value_ms is None && p.metric_message is None
            }
        }),
{
}

/// The names under which player events are logged and passed on.
pub proof fn law_event_names(event: PlayerEventView)
    ensures
        event is Playing ==> event_name_of(event) == "playing"@,
        event is Paused ==> event_name_of(event) == "paused"@,
        event is Loading ==> event_name_of(event) == "loading"@,
        event is Stopped ==> event_name_of(event) == "stopped"@,
        event is EndOfTrack ==> event_name_of(event) == "end_of_track"@,
        event is Unavailable ==> event_name_of(event) == "unavailable"@,
        event is Preloading ==> event_name_of(event) == "preloading"@,
        event is TimeToPreloadNextTrack ==> event_name_of(event) == "time_to_preload"@,
        event is VolumeChanged ==> event_name_of(event) == "volume"@,
        event is PositionCorrection ==> event_name_of(event) == "position_correction"@,
        event is PlayRequestIdChanged ==> event_name_of(event) == "play_request_id"@,
        event is Other ==> event_name_of(event) == "other"@,
{
}

/// The first event of a player is announced, and each of the first five is logged by its name, in
/// that order, at the level `debug`; later ones are not logged.
pub proof fn law_trace_lines(
    trace: PlayerTrace,
    scope: Seq<char>,
    ctx: EventContextView,
    name: Seq<char>,
)
    ensures
        trace_lines(trace, false, scope, ctx, name).len() == 0,
        ({
            let lines = trace_lines(trace, true, scope, ctx, name);
            let announced: nat = if trace.first_event_logged {
                0
            } else {
                1
            };
            let named: nat = if trace.event_count < 5 {
                1
            } else {
                0
            };
            &&& lines.len() == announced + named
            &&& forall|i: int|
                0 <= i < lines.len() ==> (#[trigger] lines[i]).level == "debug"@ && lines[i].scope
                    == Some(scope) && lines[i].device_id == ctx.device_id && lines[i].session_id
                    == ctx.session_id
            &&& announced == 1 ==> lines[0].message == "first player event: "@ + name
            &&& named == 1 ==> lines.last().message == "player event "@ + name
        }),
{
}

/// A payload is viewed as the event in it, where there is one.
pub proof fn law_payload_view(payload: Option<ConnectEvent>)
    ensures
        match payload {
            Some(p) => payload_view(payload) is Some && payload_view(payload)->0 == p@,
            None => payload_view(payload) is None,
        },
{
}

/// A borrowed text is viewed as what it holds, where there is one.
pub proof fn law_borrowed_text(text: Option<&str>)
    ensures
        match text {
            Some(t) => str_view(text) is Some && str_view(text)->0 == t@,
            None => str_view(text) is None,
        },
{
}

/// Properties are viewed one by one, each with its name and its value.
pub proof fn law_property_views(properties: Seq<Property>, i: int)
    requires
        0 <= i < properties.len(),
    ensures
        property_views(properties).len() == properties.len(),
        property_views(properties)[i].name == properties[i].name@,
        match properties[i].value {
            PropertyValue::Text(text) => property_views(properties)[i].value
                == PropertyValueView::Text(text@),
            PropertyValue::Number(number) => property_views(properties)[i].value
                == PropertyValueView::Number(number),
        },
{
}

} // verus!
