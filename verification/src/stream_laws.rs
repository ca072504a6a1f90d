//! What holds of a stream as a whole, whatever the order in which its tasks run.
//!
//! A connect host runs the same sinks and the same watch over its output: what is said here holds of
//! a host as well, as far as sinks, chunks, looks and the stop are concerned.

use vstd::prelude::*;

use crate::event_laws::{position_of, track_of};
use crate::events::{ConnectEventView, EventContextView};
use crate::health::{health_events, health_monitor, HealthMonitor};
use crate::playback::{event_name_of, trace_lines, PlayerEventView, PlayerTrace};
use crate::sink::{chunk_events, chunk_flags, is_first_chunk};
use crate::spotify::SpotifyItemView;
use crate::stream::{
    end_event, fresh_flags, fresh_playback, player_events, player_flags, player_lines,
    player_playback, probe_events, probe_fires, probed_flags, unheard_event, watched_events,
    watched_flags, StreamFlags, StreamPlayback,
};

verus! {

/// The state of a stream.
pub struct StreamState {
    pub flags: StreamFlags,
    pub playback: StreamPlayback,
    pub monitor: HealthMonitor,
    /// Some audio has come through the sink in use.
    pub first_chunk_logged: bool,
}

/// Something that happens to a stream.
pub enum StreamInput {
    /// The player opens a sink.
    SinkOpened,
    /// The player writes a chunk of audio.
    Chunk { len: nat, elapsed_ms: u64, epoch_ms: u64 },
    /// A line is logged that reports a decoding error, an audio key error, both or neither.
    Log { message: Seq<char>, decoder: bool, key: bool },
    /// The start-up probe looks at the stream.
    Probe,
    /// The output is looked at.
    Look { now_ms: u64 },
    /// The player reports something.
    Player { event: PlayerEventView },
    /// The caller stops the stream.
    Stop,
}

/// The state at the start.
pub open spec fn fresh_state() -> StreamState {
    StreamState {
        flags: fresh_flags(),
        playback: fresh_playback(),
        monitor: HealthMonitor { stall_reported: false },
        first_chunk_logged: false,
    }
}

/// The state after `input`.
pub open spec fn next_state(state: StreamState, listening: bool, input: StreamInput) -> StreamState {
    match input {
        StreamInput::SinkOpened => StreamState { first_chunk_logged: false, ..state },
        StreamInput::Chunk { len, elapsed_ms, epoch_ms } => StreamState {
            flags: chunk_flags(state.first_chunk_logged, state.flags, len, epoch_ms, listening),
            first_chunk_logged: state.first_chunk_logged || is_first_chunk(
                state.first_chunk_logged,
                len,
            ),
            ..state
        },
        StreamInput::Log { message, decoder, key } => StreamState {
            flags: watched_flags(state.flags, listening, decoder, key),
            ..state
        },
        StreamInput::Probe => StreamState { flags: probed_flags(state.flags), ..state },
        StreamInput::Look { now_ms } => StreamState {
            monitor: health_monitor(state.monitor, state.flags, now_ms),
            ..state
        },
        StreamInput::Player { event } => StreamState {
            flags: player_flags(state.playback, state.flags, listening, event),
            playback: player_playback(state.playback, listening, event),
            ..state
        },
        StreamInput::Stop => StreamState {
            flags: StreamFlags { stopped: true, ..state.flags },
            ..state
        },
    }
}

/// The events that `input` leads to.
pub open spec fn output(
    state: StreamState,
    ctx: EventContextView,
    listening: bool,
    input: StreamInput,
) -> Seq<ConnectEventView> {
    match input {
        StreamInput::SinkOpened => Seq::empty(),
        StreamInput::Chunk { len, elapsed_ms, epoch_ms } => chunk_events(
            state.first_chunk_logged,
            state.flags,
            ctx,
            len,
            elapsed_ms,
            listening,
        ),
        StreamInput::Log { message, decoder, key } => watched_events(
            state.flags,
            ctx,
            listening,
            message,
            decoder,
            key,
        ),
        StreamInput::Probe => probe_events(state.flags, ctx, listening),
        StreamInput::Look { now_ms } => if listening {
            health_events(state.monitor, state.flags, ctx, now_ms)
        } else {
            Seq::empty()
        },
        StreamInput::Player { event } => player_events(
            state.playback,
            state.flags,
            ctx,
            listening,
            event,
        ),
        StreamInput::Stop => Seq::empty(),
    }
}

/// The state after a series of inputs to a new stream.
pub open spec fn state_after(listening: bool, inputs: Seq<StreamInput>) -> StreamState
    decreases inputs.len(),
{
    if inputs.len() == 0 {
        fresh_state()
    } else {
        next_state(state_after(listening, inputs.drop_last()), listening, inputs.last())
    }
}

/// All events that a series of inputs to a new stream leads to.
pub open spec fn outputs(
    ctx: EventContextView,
    listening: bool,
    inputs: Seq<StreamInput>,
) -> Seq<ConnectEventView>
    decreases inputs.len(),
{
    if inputs.len() == 0 {
        Seq::empty()
    } else {
        outputs(ctx, listening, inputs.drop_last()) + output(
            state_after(listening, inputs.drop_last()),
            ctx,
            listening,
            inputs.last(),
        )
    }
}

/// How many of the events satisfy `p`.
pub open spec fn count(events: Seq<ConnectEventView>, p: spec_fn(ConnectEventView) -> bool) -> nat
    decreases events.len(),
{
    if events.len() == 0 {
        0
    } else {
        count(events.drop_last(), p) + (if p(events.last()) {
            1nat
        } else {
            0
        })
    }
}

proof fn lemma_count_append(
    a: Seq<ConnectEventView>,
    b: Seq<ConnectEventView>,
    p: spec_fn(ConnectEventView) -> bool,
)
    ensures
        count(a + b, p) == count(a, p) + count(b, p),
    decreases b.len(),
{
    if b.len() == 0 {
        assert(a + b =~= a);
    } else {
        assert((a + b).drop_last() =~= a + b.drop_last());
        lemma_count_append(a, b.drop_last(), p);
    }
}

proof fn lemma_count_small(
    events: Seq<ConnectEventView>,
    p: spec_fn(ConnectEventView) -> bool,
)
    ensures
        events.len() == 0 ==> count(events, p) == 0,
        events.len() == 1 ==> count(events, p) == (if p(events[0]) {
            1nat
        } else {
            0
        }),
        events.len() == 2 ==> count(events, p) == (if p(events[0]) {
            1nat
        } else {
            0
        }) + (if p(events[1]) {
            1nat
        } else {
            0
        }),
{
    reveal_with_fuel(count, 3);
}

/// The event reports an error.
pub open spec fn is_error() -> spec_fn(ConnectEventView) -> bool {
    |e: ConnectEventView| e.event_type == "error"@
}

/// The event is the metric called `name`.
pub open spec fn is_metric(name: Seq<char>) -> spec_fn(ConnectEventView) -> bool {
    |e: ConnectEventView| e.metric_name == Some(name)
}

proof fn lemma_type_names()
    ensures
        "error"@.len() == 5,
        "metric"@.len() == 6,
        "health"@.len() == 6,
        "playing"@.len() == 7,
        "paused"@.len() == 6,
        "loading"@.len() == 7,
        "position_correction"@.len() == 19,
        "stopped"@.len() == 7,
        "unavailable"@.len() == 11,
        "end_of_track"@.len() == 12,
        "volume"@.len() == 6,
        "first_pcm_ms"@ != "decode_error"@,
        "first_pcm_ms"@ != "buffer_stall_ms"@,
        "decode_error"@ != "buffer_stall_ms"@,
{
    reveal_strlit("error");
    reveal_strlit("metric");
    reveal_strlit("health");
    reveal_strlit("playing");
    reveal_strlit("paused");
    reveal_strlit("loading");
    reveal_strlit("position_correction");
    reveal_strlit("stopped");
    reveal_strlit("unavailable");
    reveal_strlit("end_of_track");
    reveal_strlit("volume");
    reveal_strlit("first_pcm_ms");
    reveal_strlit("decode_error");
    reveal_strlit("buffer_stall_ms");
    assert("first_pcm_ms"@[0] != "decode_error"@[0]);
    assert("first_pcm_ms"@.len() != "buffer_stall_ms"@.len());
    assert("decode_error"@.len() != "buffer_stall_ms"@.len());
}

/// One if `b` holds, else zero.
pub open spec fn one_if(b: bool) -> nat {
    if b {
        1
    } else {
        0
    }
}

proof fn lemma_step_counts(
    state: StreamState,
    ctx: EventContextView,
    listening: bool,
    input: StreamInput,
)
    ensures
        ({
            let events = output(state, ctx, listening, input);
            let next = next_state(state, listening, input);
            &&& listening ==> count(events, is_error()) + one_if(state.flags.error_sent) == one_if(
                next.flags.error_sent,
            )
            &&& listening ==> count(events, is_metric("first_pcm_ms"@)) + one_if(
                state.flags.metric_sent,
            ) == one_if(next.flags.metric_sent)
            &&& listening ==> count(events, is_metric("decode_error"@)) + one_if(
                state.flags.decoder_metric_sent,
            ) == one_if(next.flags.decoder_metric_sent)
            &&& !listening ==> events.len() == 0
        }),
{
    lemma_type_names();
    let events = output(state, ctx, listening, input);
    lemma_count_small(events, is_error());
    lemma_count_small(events, is_metric("first_pcm_ms"@));
    lemma_count_small(events, is_metric("decode_error"@));
    assert(events.len() <= 2);
}

proof fn lemma_run_counts(ctx: EventContextView, listening: bool, inputs: Seq<StreamInput>)
    ensures
        ({
            let events = outputs(ctx, listening, inputs);
            let state = state_after(listening, inputs);
            &&& listening ==> count(events, is_error()) == one_if(state.flags.error_sent)
            &&& listening ==> count(events, is_metric("first_pcm_ms"@)) == one_if(
                state.flags.metric_sent,
            )
            &&& listening ==> count(events, is_metric("decode_error"@)) == one_if(
                state.flags.decoder_metric_sent,
            )
            &&& !listening ==> events.len() == 0
        }),
    decreases inputs.len(),
{
    if inputs.len() > 0 {
        let before = inputs.drop_last();
        lemma_run_counts(ctx, listening, before);
        let state = state_after(listening, before);
        lemma_step_counts(state, ctx, listening, inputs.last());
        let a = outputs(ctx, listening, before);
        let b = output(state, ctx, listening, inputs.last());
        lemma_count_append(a, b, is_error());
        lemma_count_append(a, b, is_metric("first_pcm_ms"@));
        lemma_count_append(a, b, is_metric("decode_error"@));
    }
}

/// A stream reports one error at most, whatever goes wrong and however often: one where an error
/// has come to pass, none before.
pub proof fn law_one_error(ctx: EventContextView, listening: bool, inputs: Seq<StreamInput>)
    ensures
        count(outputs(ctx, listening, inputs), is_error()) <= 1,
        listening ==> count(outputs(ctx, listening, inputs), is_error()) == one_if(
            state_after(listening, inputs).flags.error_sent,
        ),
{
    lemma_run_counts(ctx, listening, inputs);
    lemma_count_small(outputs(ctx, listening, inputs), is_error());
}

/// A stream reports the time to its first audio once at most, even where several sinks are opened:
/// as soon as there is audio, not before.
pub proof fn law_one_first_pcm(ctx: EventContextView, listening: bool, inputs: Seq<StreamInput>)
    ensures
        count(outputs(ctx, listening, inputs), is_metric("first_pcm_ms"@)) <= 1,
        listening ==> count(outputs(ctx, listening, inputs), is_metric("first_pcm_ms"@)) == one_if(
            state_after(listening, inputs).flags.first_chunk,
        ),
{
    lemma_run_counts(ctx, listening, inputs);
    lemma_first_chunk_reported(listening, inputs);
    lemma_count_small(outputs(ctx, listening, inputs), is_metric("first_pcm_ms"@));
}

proof fn lemma_first_chunk_reported(listening: bool, inputs: Seq<StreamInput>)
    ensures
        listening ==> state_after(listening, inputs).flags.metric_sent == state_after(
            listening,
            inputs,
        ).flags.first_chunk,
    decreases inputs.len(),
{
    if inputs.len() > 0 {
        lemma_first_chunk_reported(listening, inputs.drop_last());
    }
}

/// A stream reports a decoding error once at most.
pub proof fn law_one_decode_error(ctx: EventContextView, listening: bool, inputs: Seq<StreamInput>)
    ensures
        count(outputs(ctx, listening, inputs), is_metric("decode_error"@)) <= 1,
        listening ==> count(outputs(ctx, listening, inputs), is_metric("decode_error"@)) == one_if(
            state_after(listening, inputs).flags.decoder_metric_sent,
        ),
{
    lemma_run_counts(ctx, listening, inputs);
    lemma_count_small(outputs(ctx, listening, inputs), is_metric("decode_error"@));
}

/// The types of events that a stream sends.
pub open spec fn known_type(event_type: Seq<char>) -> bool {
    ||| event_type == "playing"@
    ||| event_type == "paused"@
    ||| event_type == "loading"@
    ||| event_type == "stopped"@
    ||| event_type == "end_of_track"@
    ||| event_type == "unavailable"@
    ||| event_type == "volume"@
    ||| event_type == "position_correction"@
    ||| event_type == "error"@
    ||| event_type == "health"@
    ||| event_type == "metric"@
}

/// The event is of a known type; an error, a state of the output and a metric carry one of the
/// codes or names that exist for them, and other events carry none.
pub open spec fn well_labelled(e: ConnectEventView) -> bool {
    &&& known_type(e.event_type)
    &&& e.event_type == "error"@ ==> (e.error_code == Some("audio_key_error"@) || e.error_code
        == Some("no_pcm"@) || e.error_code == Some("end_of_track"@) || e.error_code == Some(
        "unavailable"@,
    ))
    &&& e.event_type == "health"@ ==> (e.error_code == Some("pcm_missing"@) || e.error_code == Some(
        "pcm_stalled"@,
    ) || e.error_code == Some("pcm_ok"@))
    &&& e.event_type == "metric"@ ==> (e.metric_name == Some("first_pcm_ms"@) || e.metric_name
        == Some("buffer_stall_ms"@) || e.metric_name == Some("decode_error"@))
    &&& e.event_type != "error"@ && e.event_type != "health"@ ==> e.error_code is None
        && e.error_message is None
    &&& e.event_type != "metric"@ ==> e.metric_name is None
}

/// Every event of a stream has a known type and one of the known codes or names.
pub proof fn law_events_well_labelled(
    ctx: EventContextView,
    listening: bool,
    inputs: Seq<StreamInput>,
    i: int,
)
    requires
        0 <= i < outputs(ctx, listening, inputs).len(),
    ensures
        well_labelled(outputs(ctx, listening, inputs)[i]),
    decreases inputs.len(),
{
    let before = outputs(ctx, listening, inputs.drop_last());
    if i < before.len() {
        law_events_well_labelled(ctx, listening, inputs.drop_last(), i);
    } else {
        let state = state_after(listening, inputs.drop_last());
        lemma_step_well_labelled(state, ctx, listening, inputs.last(), i - before.len());
    }
}

proof fn lemma_step_well_labelled(
    state: StreamState,
    ctx: EventContextView,
    listening: bool,
    input: StreamInput,
    i: int,
)
    requires
        0 <= i < output(state, ctx, listening, input).len(),
    ensures
        well_labelled(output(state, ctx, listening, input)[i]),
{
    lemma_type_names();
    lemma_distinct_types();
    let events = output(state, ctx, listening, input);
    match input {
        StreamInput::Player { event } => {
            assert(events.len() <= 2);
            assert(well_labelled(events[i]));
        },
        StreamInput::Look { now_ms } => {
            assert(events.len() <= 2);
            assert(well_labelled(events[i]));
        },
        _ => {},
    }
}

proof fn lemma_distinct_types()
    ensures
        "metric"@ != "health"@,
        "metric"@ != "paused"@,
        "metric"@ != "volume"@,
        "health"@ != "paused"@,
        "health"@ != "volume"@,
{
    reveal_strlit("metric");
    reveal_strlit("health");
    reveal_strlit("paused");
    reveal_strlit("volume");
    assert("metric"@[0] != "health"@[0]);
    assert("metric"@[0] != "paused"@[0]);
    assert("metric"@[0] != "volume"@[0]);
    assert("health"@[0] != "paused"@[0]);
    assert("health"@[0] != "volume"@[0]);
}

/// The position that an input tells: that at which the player plays or is paused.
pub open spec fn told_position(input: StreamInput) -> Option<u32> {
    match input {
        StreamInput::Player { event } => match event {
            PlayerEventView::Playing { position_ms, .. } => Some(position_ms),
            PlayerEventView::Paused { position_ms, .. } => Some(position_ms),
            _ => None,
        },
        _ => None,
    }
}

/// The position that was told last in a series of inputs, if any was.
pub open spec fn last_position(inputs: Seq<StreamInput>) -> Option<u32>
    decreases inputs.len(),
{
    if inputs.len() == 0 {
        None
    } else if told_position(inputs.last()) is Some {
        told_position(inputs.last())
    } else {
        last_position(inputs.drop_last())
    }
}

/// When a track ends that was heard to play or be paused, the stream sends one event that says so,
/// about that track and with the position told last, whatever errors there were; when a track ends
/// that was not heard, the stream sends an error, unless it has sent one before.
pub proof fn law_end_of_track(
    ctx: EventContextView,
    inputs: Seq<StreamInput>,
    track: SpotifyItemView,
)
    ensures
        ({
            let state = state_after(true, inputs);
            let events = output(
                state,
                ctx,
                true,
                StreamInput::Player { event: PlayerEventView::EndOfTrack { track } },
            );
            let memory = state.playback.memory;
            &&& memory.last_position_ms == last_position(inputs)
            &&& last_position(inputs) is Some ==> events == seq![end_event(memory, ctx, track)]
            &&& last_position(inputs) is None && state.flags.error_sent ==> events.len() == 0
            &&& last_position(inputs) is None && !state.flags.error_sent ==> events == seq![
                unheard_event(ctx, track),
            ]
        }),
{
    lemma_last_position(inputs);
}

proof fn lemma_last_position(inputs: Seq<StreamInput>)
    ensures
        state_after(true, inputs).playback.memory.last_position_ms == last_position(inputs),
        state_after(true, inputs).playback.memory.saw_playing == (last_position(inputs) is Some),
    decreases inputs.len(),
{
    if inputs.len() > 0 {
        lemma_last_position(inputs.drop_last());
    }
}

/// Where nobody listens, a stream sends no event at all.
pub proof fn law_silent_without_listener(ctx: EventContextView, inputs: Seq<StreamInput>)
    ensures
        outputs(ctx, false, inputs).len() == 0,
    decreases inputs.len(),
{
    if inputs.len() > 0 {
        law_silent_without_listener(ctx, inputs.drop_last());
    }
}

/// Once something has been reported, or the stream has been stopped, that remains so.
pub proof fn law_flags_stay(listening: bool, inputs: Seq<StreamInput>, k: int)
    requires
        0 <= k <= inputs.len(),
    ensures
        ({
            let early = state_after(listening, inputs.take(k)).flags;
            let late = state_after(listening, inputs).flags;
            &&& early.first_chunk ==> late.first_chunk
            &&& early.metric_sent ==> late.metric_sent
            &&& early.error_sent ==> late.error_sent
            &&& early.decoder_metric_sent ==> late.decoder_metric_sent
            &&& early.stopped ==> late.stopped
        }),
    decreases inputs.len(),
{
    if k == inputs.len() {
        assert(inputs.take(k) =~= inputs);
    } else {
        assert(inputs.drop_last().take(k) =~= inputs.take(k));
        law_flags_stay(listening, inputs.drop_last(), k);
    }
}

/// After a stop, neither a log line nor a look at the output leads to an event.
pub proof fn law_quiet_after_stop(
    ctx: EventContextView,
    listening: bool,
    inputs: Seq<StreamInput>,
    k: int,
    input: StreamInput,
)
    requires
        0 <= k < inputs.len(),
        inputs[k] is Stop,
        input is Log || input is Look,
    ensures
        output(state_after(listening, inputs), ctx, listening, input).len() == 0,
{
    assert(inputs.take(k + 1).last() == inputs[k]);
    law_flags_stay(listening, inputs, k + 1);
}

/// Playback events are always passed on: whatever the state of a stream and whatever errors it has
/// reported, a player event of these kinds leads to exactly one event, of that type, about that
/// event's track and with its position or volume.
pub proof fn law_playback_events_always_sent(
    state: StreamState,
    ctx: EventContextView,
    event: PlayerEventView,
)
    requires
        event is Playing || event is Paused || event is Loading || event is Stopped
            || event is PositionCorrection || event is VolumeChanged,
    ensures
        ({
            let events = output(state, ctx, true, StreamInput::Player { event });
            let e = events[0];
            &&& events.len() == 1
            &&& e.event_type == event_name_of(event)
            &&& e.position_ms == position_of(event)
            &&& e.track_id == (match track_of(event) {
                Some(track) => Some(track.id),
                None => None,
            })
            &&& e.uri == (match track_of(event) {
                Some(track) => Some(track.uri),
                None => None,
            })
            &&& e.volume == (match event {
                PlayerEventView::VolumeChanged { volume } => Some(volume),
                _ => None,
            })
            &&& e.device_id == ctx.device_id
            &&& e.session_id == ctx.session_id
            &&& e.duration_ms is None
            &&& e.title is None && e.artist is None && e.album is None
            &&& e.error_code is None && e.error_message is None
            &&& e.metric_name is None && e.metric_value_ms is None && e.metric_message is None
        }),
{
}

/// What is reported of a player event that is no trouble does not depend on what was reported
/// before: two streams with the same memory of the playback send the same.
pub proof fn law_errors_silence_nothing(
    playback: StreamPlayback,
    one: StreamFlags,
    other: StreamFlags,
    ctx: EventContextView,
    listening: bool,
    event: PlayerEventView,
)
    requires
        !(event is Unavailable),
        event is EndOfTrack ==> playback.memory.saw_playing,
    ensures
        player_events(playback, one, ctx, listening, event) == player_events(
            playback,
            other,
            ctx,
            listening,
            event,
        ),
{
}

/// An unavailable track is always passed on as an event about that track, as the last thing; before
/// it comes an error about the track that was asked for, where neither an error nor an unavailable
/// track was reported before.
pub proof fn law_unavailable_reported(
    state: StreamState,
    ctx: EventContextView,
    track: SpotifyItemView,
)
    ensures
        ({
            let event = PlayerEventView::Unavailable { track };
            let events = output(state, ctx, true, StreamInput::Player { event });
            let news = !state.flags.error_sent && !state.playback.sent_unavailable;
            let e = events.last();
            &&& events.len() == 1 + one_if(news)
            &&& e.event_type == "unavailable"@
            &&& e.track_id == Some(track.id)
            &&& e.uri == Some(track.uri)
            &&& e.device_id == ctx.device_id
            &&& e.session_id == ctx.session_id
            &&& e.error_code is None && e.error_message is None
            &&& e.position_ms is None && e.duration_ms is None && e.volume is None
            &&& news ==> {
                &&& events[0].event_type == "error"@
                &&& events[0].error_code == Some("unavailable"@)
                &&& events[0].error_message == Some("track unavailable"@)
                &&& events[0].track_id == ctx.track_id
                &&& events[0].uri == ctx.uri
                &&& events[0].device_id == ctx.device_id
                &&& events[0].session_id == ctx.session_id
            }
        }),
{
}

/// Player events that callbacks do not know lead to nothing.
pub proof fn law_inner_events_unsent(
    state: StreamState,
    ctx: EventContextView,
    event: PlayerEventView,
)
    requires
        event is Preloading || event is TimeToPreloadNextTrack || event is PlayRequestIdChanged
            || event is Other,
    ensures
        output(state, ctx, true, StreamInput::Player { event }).len() == 0,
{
}

/// How a track's end is told, field by field: an event with the position remembered where the track
/// was heard, else an error about that track, where no error was reported before.
pub proof fn law_end_fields(state: StreamState, ctx: EventContextView, track: SpotifyItemView)
    ensures
        ({
            let event = PlayerEventView::EndOfTrack { track };
            let events = output(state, ctx, true, StreamInput::Player { event });
            let memory = state.playback.memory;
            let e = events[0];
            &&& events.len() == one_if(memory.saw_playing || !state.flags.error_sent)
            &&& events.len() == 1 ==> e.track_id == Some(track.id) && e.uri == Some(track.uri)
                && e.device_id == ctx.device_id && e.session_id == ctx.session_id
                && e.metric_name is None && e.volume is None && e.title is None
            &&& memory.saw_playing ==> e.event_type == "end_of_track"@ && e.position_ms
                == memory.last_position_ms && e.duration_ms == memory.last_duration_ms
                && e.error_code is None && e.error_message is None
            &&& !memory.saw_playing && events.len() == 1 ==> e.event_type == "error"@
                && e.error_code == Some("end_of_track"@) && e.error_message == Some(
                "end_of_track before pcm"@,
            ) && e.position_ms is None && e.duration_ms is None
        }),
{
}

/// While a stream runs, a line that reports a decoding error leads to a metric with that very
/// message, and one that reports an audio key error to an error with it, each the first time; the
/// metric comes first. No other line leads to anything.
pub proof fn law_trouble_reported(
    state: StreamState,
    ctx: EventContextView,
    message: Seq<char>,
    decoder: bool,
    key: bool,
)
    requires
        !state.flags.stopped,
    ensures
        ({
            let events = output(state, ctx, true, StreamInput::Log { message, decoder, key });
            let metric = decoder && !state.flags.decoder_metric_sent;
            let error = key && !state.flags.error_sent;
            &&& events.len() == one_if(metric) + one_if(error)
            &&& metric ==> {
                let e = events[0];
                &&& e.event_type == "metric"@
                &&& e.metric_name == Some("decode_error"@)
                &&& e.metric_message == Some(message)
                &&& e.metric_value_ms is None
                &&& e.track_id == ctx.track_id && e.uri == ctx.uri
                &&& e.device_id == ctx.device_id && e.session_id == ctx.session_id
                &&& e.error_code is None
            }
            &&& error ==> {
                let e = events.last();
                &&& e.event_type == "error"@
                &&& e.error_code == Some("audio_key_error"@)
                &&& e.error_message == Some(message)
                &&& e.track_id == ctx.track_id && e.uri == ctx.uri
                &&& e.device_id == ctx.device_id && e.session_id == ctx.session_id
                &&& e.metric_name is None
            }
        }),
{
}

/// The start-up probe reports an error exactly where no audio has come and no error was reported.
pub proof fn law_probe_reports(state: StreamState, ctx: EventContextView)
    ensures
        ({
            let events = output(state, ctx, true, StreamInput::Probe);
            let e = events[0];
            &&& events.len() == one_if(!state.flags.first_chunk && !state.flags.error_sent)
            &&& events.len() == 1 ==> {
                &&& e.event_type == "error"@
                &&& e.error_code == Some("no_pcm"@)
                &&& e.error_message == Some("no pcm after 1500ms"@)
                &&& e.track_id == ctx.track_id && e.uri == ctx.uri
                &&& e.device_id == ctx.device_id && e.session_id == ctx.session_id
            }
            &&& probe_fires(state.flags) <==> events.len() == 1
        }),
{
}

/// A chunk leads to an event exactly where it is the first audio of its sink and of the stream: the
/// time since the start, in milliseconds, as far as a metric can hold it.
pub proof fn law_first_audio_reported(
    state: StreamState,
    ctx: EventContextView,
    len: nat,
    elapsed_ms: u64,
    epoch_ms: u64,
)
    ensures
        ({
            let events = output(state, ctx, true, StreamInput::Chunk { len, elapsed_ms, epoch_ms });
            let first = len > 0 && !state.first_chunk_logged;
            let e = events[0];
            &&& events.len() == one_if(first && !state.flags.metric_sent)
            &&& events.len() == 1 ==> {
                &&& e.event_type == "metric"@
                &&& e.metric_name == Some("first_pcm_ms"@)
                &&& elapsed_ms <= u32::MAX ==> e.metric_value_ms is Some && e.metric_value_ms->0
                    == elapsed_ms
                &&& elapsed_ms > u32::MAX ==> e.metric_value_ms == Some(u32::MAX)
                &&& e.metric_message is None
                &&& e.track_id == ctx.track_id && e.uri == ctx.uri
                &&& e.device_id == ctx.device_id && e.session_id == ctx.session_id
            }
            &&& is_first_chunk(state.first_chunk_logged, len) == first
        }),
{
}

/// What each input does to the flags that the tasks of a stream share, and what it leaves alone.
pub proof fn law_flags_follow(
    state: StreamState,
    listening: bool,
    input: StreamInput,
)
    ensures
        ({
            let was = state.flags;
            let now = next_state(state, listening, input).flags;
            &&& now.first_chunk == (was.first_chunk || (input is Chunk && input->len > 0
                && !state.first_chunk_logged))
            &&& now.last_pcm_at == (if input is Chunk && input->len > 0 {
                input->epoch_ms
            } else {
                was.last_pcm_at
            })
            &&& now.metric_sent == (was.metric_sent || (listening && input is Chunk && input->len
                > 0 && !state.first_chunk_logged))
            &&& now.decoder_metric_sent == (was.decoder_metric_sent || (listening && input is Log
                && input->decoder && !was.stopped))
            &&& now.error_sent == (was.error_sent || (input is Log && input->key && !was.stopped)
                || (input is Probe && !was.first_chunk) || (input is Player
                && input->event is Unavailable && !state.playback.sent_unavailable) || (listening
                && input is Player && input->event is EndOfTrack
                && !state.playback.memory.saw_playing))
            &&& now.stopped == (was.stopped || input is Stop)
        }),
{
}

/// What a stream remembers of its player: the position told last, that something was heard, and that
/// the track was found unavailable; it learns no duration.
pub proof fn law_memory_follows(playback: StreamPlayback, listening: bool, event: PlayerEventView)
    ensures
        ({
            let heard = listening && (event is Playing || event is Paused);
            let now = player_playback(playback, listening, event);
            &&& now.memory.saw_playing == (playback.memory.saw_playing || heard)
            &&& now.memory.last_position_ms == (if heard {
                position_of(event)
            } else {
                playback.memory.last_position_ms
            })
            &&& now.memory.last_duration_ms == playback.memory.last_duration_ms
            &&& now.sent_unavailable == (playback.sent_unavailable || event is Unavailable)
        }),
{
}

/// A stream starts with nothing reported, nothing heard and no audio.
pub proof fn law_fresh()
    ensures
        !fresh_flags().first_chunk,
        fresh_flags().last_pcm_at == 0,
        !fresh_flags().metric_sent,
        !fresh_flags().error_sent,
        !fresh_flags().decoder_metric_sent,
        !fresh_flags().stopped,
        !fresh_playback().sent_unavailable,
        !fresh_playback().memory.saw_playing,
        fresh_playback().memory.last_position_ms is None,
        fresh_playback().memory.last_duration_ms is None,
{
}

/// The log of a stream's player, beside what every player's log has: a warning when the track is
/// first found unavailable.
pub proof fn law_unavailable_logged(
    trace: PlayerTrace,
    playback: StreamPlayback,
    ctx: EventContextView,
    event: PlayerEventView,
)
    ensures
        ({
            let lines = player_lines(trace, playback, ctx, true, event);
            let usual = trace_lines(trace, true, "stream_track"@, ctx, event_name_of(event));
            let warned = event is Unavailable && !playback.sent_unavailable;
            &&& lines.len() == usual.len() + one_if(warned)
            &&& lines.take(usual.len() as int) == usual
            &&& warned ==> {
                &&& lines.last().level == "warn"@
                &&& lines.last().message == "player reported track unavailable"@
                &&& lines.last().scope == Some("stream_track"@)
                &&& lines.last().device_id == ctx.device_id
                &&& lines.last().session_id == ctx.session_id
            }
        }),
        player_lines(trace, playback, ctx, false, event).len() == 0,
{
    let lines = player_lines(trace, playback, ctx, true, event);
    let usual = trace_lines(trace, true, "stream_track"@, ctx, event_name_of(event));
    assert(lines.take(usual.len() as int) =~= usual);
}

/// What an input to a stream leads to is what the function that takes it in says: of sinks, of log
/// lines, of the probe, of looks at the output and of player events. Opening a sink and a stop lead
/// to no event.
pub proof fn law_output_parts(
    state: StreamState,
    ctx: EventContextView,
    listening: bool,
    input: StreamInput,
)
    ensures
        match input {
            StreamInput::SinkOpened => output(state, ctx, listening, input).len() == 0,
            StreamInput::Chunk { len, elapsed_ms, epoch_ms } => output(state, ctx, listening, input)
                == chunk_events(
                state.first_chunk_logged,
                state.flags,
                ctx,
                len,
                elapsed_ms,
                listening,
            ),
            StreamInput::Log { message, decoder, key } => output(state, ctx, listening, input)
                == watched_events(state.flags, ctx, listening, message, decoder, key),
            StreamInput::Probe => output(state, ctx, listening, input) == probe_events(
                state.flags,
                ctx,
                listening,
            ),
            StreamInput::Look { now_ms } => listening ==> output(state, ctx, listening, input)
                == health_events(state.monitor, state.flags, ctx, now_ms),
            StreamInput::Player { event } => output(state, ctx, listening, input) == player_events(
                state.playback,
                state.flags,
                ctx,
                listening,
                event,
            ),
            StreamInput::Stop => output(state, ctx, listening, input).len() == 0,
        },
{
}

/// What an input to a stream does to the flags is what the function that takes it in says.
pub proof fn law_next_flags_parts(state: StreamState, listening: bool, input: StreamInput)
    ensures
        match input {
            StreamInput::Chunk { len, elapsed_ms, epoch_ms } => next_state(
                state,
                listening,
                input,
            ).flags == chunk_flags(
                state.first_chunk_logged,
                state.flags,
                len,
                epoch_ms,
                listening,
            ),
            StreamInput::Log { message, decoder, key } => next_state(state, listening, input).flags
                == watched_flags(state.flags, listening, decoder, key),
            StreamInput::Probe => next_state(state, listening, input).flags == probed_flags(
                state.flags,
            ),
            StreamInput::Player { event } => next_state(state, listening, input).flags
                == player_flags(state.playback, state.flags, listening, event) && next_state(
                state,
                listening,
                input,
            ).playback == player_playback(state.playback, listening, event),
            _ => true,
        },
{
}

} // verus!
