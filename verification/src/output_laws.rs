//! What comes out of a sink, and what the watch over it says.

use vstd::prelude::*;

use crate::connect::host_scope;
use crate::events::EventContextView;
use crate::handles::{CHANNELS, SAMPLE_RATE};
use crate::health::{
    clamp_ms, health_events, health_monitor, pcm_health, silence_ms, HealthMonitor, PcmHealth,
};
use crate::sink::{
    bytes_per_sample, chunk_ns, first_chunk_message, fresh_pacer, frames_in, paced, s24le, time_left,
    words_le, AudioFormat, ChannelSink, Pacer, SinkConfig,
};
use crate::stream::{stream_scope, StreamFlags};
use crate::text::decimal;
use crate::timing::{frames_ns, nearest};
use crate::tracks::new_sink;

verus! {

/// Encoded words hold four bytes each, the least significant first, and can be read back.
pub proof fn law_words_read_back(words: Seq<u32>, i: int)
    requires
        0 <= i < words.len(),
    ensures
        words_le(words).len() == 4 * words.len(),
        words_le(words)[4 * i] + 256 * words_le(words)[4 * i + 1] + 65536 * words_le(words)[4 * i
            + 2] + 16777216 * words_le(words)[4 * i + 3] == words[i],
{
    let n = words[i] as int;
    assert(n % 256 + 256 * (n / 256 % 256) + 65536 * (n / 65536 % 256) + 16777216 * (n / 16777216
        % 256) == n);
}

/// Encoded 24 bit samples hold four bytes each and can be read back, sign included.
pub proof fn law_s24le_reads_back(samples: Seq<i32>, i: int)
    requires
        0 <= i < samples.len(),
    ensures
        s24le(samples).len() == 4 * samples.len(),
        ({
            let b = s24le(samples);
            let n = b[4 * i] + 256 * b[4 * i + 1] + 65536 * b[4 * i + 2] + 16777216 * b[4 * i + 3];
            samples[i] == (if n >= 2147483648 {
                n - 4294967296
            } else {
                n
            })
        }),
{
    let n = if samples[i] < 0 {
        samples[i] + 4294967296
    } else {
        samples[i] as int
    };
    assert(n % 256 + 256 * (n / 256 % 256) + 65536 * (n / 65536 % 256) + 16777216 * (n / 16777216
        % 256) == n);
}

/// The frames that are counted in a chunk are those that fit into it whole, with two bytes for a
/// sample, three for one of 24 bits and four for one of 32 bits.
pub proof fn law_frames_fit(config: SinkConfig, len: nat)
    requires
        config.channels > 0,
    ensures
        ({
            let sample: nat = match config.format {
                AudioFormat::S24 => 3,
                AudioFormat::S32 => 4,
                AudioFormat::F32 => 4,
                AudioFormat::S16 => 2,
                AudioFormat::F64 => 2,
                AudioFormat::S24Packed => 2,
            };
            let frame = sample * config.channels as nat;
            let frames = frames_in(config, len);
            &&& frames * frame <= len
            &&& len < (frames + 1) * frame
        }),
{
    let frame = bytes_per_sample(config.format) * config.channels as nat;
    assert(frame > 0) by (nonlinear_arith)
        requires
            frame == bytes_per_sample(config.format) * config.channels as nat,
            bytes_per_sample(config.format) >= 2,
            config.channels > 0,
    ;
    vstd::arithmetic::div_mod::lemma_fundamental_div_mod(len as int, frame as int);
    vstd::arithmetic::div_mod::lemma_mod_bound(len as int, frame as int);
    let q = len / frame;
    assert(frame * q == q * frame) by (nonlinear_arith);
    assert((q + 1) * frame == q * frame + frame) by (nonlinear_arith);
}

/// A chunk plays as long as its frames at the sample rate.
pub proof fn law_chunk_time(config: SinkConfig, len: nat)
    ensures
        chunk_ns(config, len) == frames_ns(frames_in(config, len), config.sample_rate as nat),
{
}

/// The nearest whole number is nearer than any other, and of two that are equally near it is even.
pub proof fn law_nearest(n: nat, d: nat, m: nat)
    requires
        d > 0,
        m != nearest(n, d),
    ensures
        ({
            let far = if m * d >= n {
                m * d - n
            } else {
                n - m * d
            };
            let near = if nearest(n, d) * d >= n {
                nearest(n, d) * d - n
            } else {
                n - nearest(n, d) * d
            };
            near < far || (near == far && nearest(n, d) % 2 == 0)
        }),
{
    vstd::arithmetic::div_mod::lemma_fundamental_div_mod(n as int, d as int);
    vstd::arithmetic::div_mod::lemma_mod_bound(n as int, d as int);
    let q = n / d;
    let r = n % d;
    assert(d * q == q * d) by (nonlinear_arith);
    assert((q + 1) * d == q * d + d) by (nonlinear_arith);
    if m < q {
        assert(m * d + d <= q * d) by (nonlinear_arith)
            requires
                m + 1 <= q,
        ;
    } else if m > q + 1 {
        assert(m * d >= q * d + 2 * d) by (nonlinear_arith)
            requires
                m >= q + 2,
        ;
    }
}

/// The clock of a sink: the first chunk starts it, no later one moves it, and every chunk adds the
/// time that it plays. Waiting as told ends when all of that is over.
pub proof fn law_clock(pacer: Pacer, duration_ns: u128, opened_ns: u128, now_ns: u128)
    requires
        pacer.expected_ns + duration_ns <= u128::MAX,
    ensures
        fresh_pacer().start_ns is None,
        fresh_pacer().expected_ns == 0,
        ({
            let after = paced(pacer, duration_ns, opened_ns);
            let start = match pacer.start_ns {
                Some(s) => s,
                None => opened_ns,
            };
            let end = start + pacer.expected_ns + duration_ns;
            &&& after.start_ns == Some(start)
            &&& after.expected_ns == pacer.expected_ns + duration_ns
            &&& time_left(after, now_ns) >= 0
            &&& now_ns + time_left(after, now_ns) >= end
            &&& time_left(after, now_ns) > 0 ==> now_ns + time_left(after, now_ns) == end
        }),
{
}

/// The announcement of the first audio names the number of bytes, the sample rate and the number of
/// channels.
pub proof fn law_announcement(config: SinkConfig, len: nat)
    ensures
        first_chunk_message(config, len) == "first pcm chunk: bytes="@ + decimal(len)
            + " sample_rate="@ + decimal(config.sample_rate as nat) + " channels="@ + decimal(
            config.channels as nat,
        ),
{
}

/// A new sink delivers 16 bit stereo audio at 44100 samples per second.
pub proof fn law_new_sink(sink: ChannelSink, scope: Seq<char>, ctx: EventContextView)
    requires
        new_sink(sink, scope, ctx),
    ensures
        sink.config.format == AudioFormat::S16,
        sink.config.sample_rate == 44100,
        sink.config.channels == 2,
        sink.config.scope@ == scope,
        sink.config.ctx@ == ctx,
        sink.pacer.start_ns is None,
        sink.pacer.expected_ns == 0,
        !sink.first_chunk_logged,
        SAMPLE_RATE == 44100,
        CHANNELS == 2,
        stream_scope() == "stream_track"@,
        host_scope() == "connect_host"@,
{
}

/// The state that a look at the output finds: missing before any audio, stalled once none has come
/// for more than two seconds, else flowing.
pub proof fn law_pcm_state(last_ms: u64, now_ms: u64)
    ensures
        last_ms == 0 ==> pcm_health(last_ms, now_ms) == PcmHealth::Missing,
        last_ms > 0 && now_ms > last_ms + 2000 ==> pcm_health(last_ms, now_ms)
            == PcmHealth::Stalled,
        last_ms > 0 && now_ms <= last_ms + 2000 ==> pcm_health(last_ms, now_ms)
            == PcmHealth::Flowing,
        now_ms >= last_ms ==> silence_ms(last_ms, now_ms) == now_ms - last_ms,
        now_ms < last_ms ==> silence_ms(last_ms, now_ms) == 0,
{
}

/// A number of milliseconds is reported as it is, as far as a metric can hold it.
pub proof fn law_milliseconds(ms: u64)
    ensures
        ms <= u32::MAX ==> clamp_ms(ms as int) == ms,
        ms > u32::MAX ==> clamp_ms(ms as int) == u32::MAX,
{
}

/// What a look at the output of a running stream reports, field by field: its state, and before that
/// a metric with the length of the stall, where a stall is seen that was not reported yet.
pub proof fn law_look(
    monitor: HealthMonitor,
    flags: StreamFlags,
    ctx: EventContextView,
    now_ms: u64,
)
    requires
        !flags.stopped,
    ensures
        ({
            let events = health_events(monitor, flags, ctx, now_ms);
            let e = events.last();
            let last = flags.last_pcm_at;
            let stalled = last > 0 && now_ms > last + 2000;
            let metric = stalled && !monitor.stall_reported;
            &&& events.len() == (if metric {
                2nat
            } else {
                1
            })
            &&& e.event_type == "health"@
            &&& e.error_code == Some(
                if last == 0 {
                    "pcm_missing"@
                } else if stalled {
                    "pcm_stalled"@
                } else {
                    "pcm_ok"@
                },
            )
            &&& e.error_message == Some(
                if last == 0 {
                    "no pcm received yet"@
                } else if stalled {
                    "pcm stalled"@
                } else {
                    "pcm flowing"@
                },
            )
            &&& e.track_id == ctx.track_id && e.uri == ctx.uri
            &&& e.device_id == ctx.device_id && e.session_id == ctx.session_id
            &&& e.metric_name is None && e.position_ms is None && e.duration_ms is None
            &&& metric ==> {
                let m = events[0];
                &&& m.event_type == "metric"@
                &&& m.metric_name == Some("buffer_stall_ms"@)
                &&& m.metric_message == Some("pcm stalled"@)
                &&& m.metric_value_ms is Some
                &&& now_ms - last <= u32::MAX ==> m.metric_value_ms->0 == now_ms - last
                &&& now_ms - last > u32::MAX ==> m.metric_value_ms->0 == u32::MAX
                &&& m.track_id == ctx.track_id && m.uri == ctx.uri
                &&& m.device_id == ctx.device_id && m.session_id == ctx.session_id
                &&& m.error_code is None
            }
        }),
{
}

/// A stall counts as reported from the look that finds it until one that finds audio flow; a look
/// that finds no audio at all changes nothing.
pub proof fn law_stall_remembered(monitor: HealthMonitor, flags: StreamFlags, now_ms: u64)
    ensures
        ({
            let after = health_monitor(monitor, flags, now_ms);
            let last = flags.last_pcm_at;
            &&& flags.stopped || last == 0 ==> after.stall_reported == monitor.stall_reported
            &&& !flags.stopped && last > 0 && now_ms > last + 2000 ==> after.stall_reported
            &&& !flags.stopped && last > 0 && now_ms <= last + 2000 ==> !after.stall_reported
        }),
{
}

} // verus!
