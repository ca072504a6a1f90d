//! The sink that a player writes its audio to: encoding, first-audio reports and pacing.

use vstd::prelude::*;
use vstd::string::*;

use crate::events::{
    event_views, log_views, metric_event, ConnectEvent, ConnectEventView, EventContext,
    EventContextView, LogEvent,
};
use crate::health::{clamp_ms, clamp_to_u32};
use crate::logging::{log_line, push_log};
use crate::stream::StreamFlags;
use crate::text::{concat, decimal, decimal_text};
use crate::timing::{frames_ns, playing_ns, LEAST_54_BITS, NANOS_PER_SECOND};
use crate::timing::law_playing_time;

verus! {

/// The sample formats that a sink can be asked for.
#[derive(Clone, Copy, Debug, PartialEq, Eq, Structural)]
pub enum AudioFormat {
    F64,
    F32,
    S32,
    S24,
    S24Packed,
    S16,
}

/// The sample types into which audio is converted.
#[derive(Clone, Copy, Debug, PartialEq, Eq, Structural)]
pub enum SampleType {
    S16,
    F32,
    S24,
}

/// The sample type for a format; formats without a type of their own are served as 16 bit samples.
pub fn sample_type(format: AudioFormat) -> (sample: SampleType)
    ensures
        sample == (match format {
            AudioFormat::F32 => SampleType::F32,
            AudioFormat::S24 => SampleType::S24,
            _ => SampleType::S16,
        }),
{
    match format {
        AudioFormat::S16 => SampleType::S16,
        AudioFormat::F32 => SampleType::F32,
        AudioFormat::S24 => SampleType::S24,
        _ => SampleType::S16,
    }
}

/// The non-negative number that has the same two's complement bits, of the given modulus.
pub open spec fn unsigned(n: int, modulus: int) -> int {
    if n < 0 {
        n + modulus
    } else {
        n
    }
}

/// The byte at position `k`, least significant first, of a non-negative number.
pub open spec fn byte_at(n: int, k: int) -> u8
    recommends
        0 <= k < 4,
{
    if k == 0 {
        (n % 256) as u8
    } else if k == 1 {
        (n / 256 % 256) as u8
    } else if k == 2 {
        (n / 65536 % 256) as u8
    } else {
        (n / 16777216 % 256) as u8
    }
}

/// 16 bit samples as little-endian bytes.
pub open spec fn s16le(samples: Seq<i16>) -> Seq<u8> {
    Seq::new(
        samples.len() * 2,
        |i: int| byte_at(unsigned(samples[i / 2] as int, 65536), i % 2),
    )
}

/// 32 bit words as little-endian bytes.
pub open spec fn words_le(words: Seq<u32>) -> Seq<u8> {
    Seq::new(words.len() * 4, |i: int| byte_at(words[i / 4] as int, i % 4))
}

/// 24 bit samples, each held in 32 bits, as little-endian bytes.
pub open spec fn s24le(samples: Seq<i32>) -> Seq<u8> {
    Seq::new(
        samples.len() * 4,
        |i: int| byte_at(unsigned(samples[i / 4] as int, 4294967296), i % 4),
    )
}

/// 16 bit samples as little-endian bytes.
pub fn encode_s16(samples: &Vec<i16>) -> (bytes: Vec<u8>)
    ensures
        bytes@ == s16le(samples@),
{
    let mut bytes: Vec<u8> = Vec::new();
    let mut i: usize = 0;
    while i < samples.len()
        invariant
            i <= samples@.len(),
            bytes@ == s16le(samples@.take(i as int)),
        decreases samples@.len() - i,
    {
        let sample: i16 = samples[i];
        let n: u32 = if sample < 0 {
            (sample as i32 + 65536) as u32
        } else {
            sample as u32
        };
        bytes.push((n % 256) as u8);
        bytes.push((n / 256) as u8);
        assert(bytes@ =~= s16le(samples@.take(i + 1))) by {
            assert forall|k: int| 0 <= k < bytes@.len() implies bytes@[k] == s16le(
                samples@.take(i + 1),
            )[k] by {
                if k < 2 * i {
                    assert(bytes@[k] == s16le(samples@.take(i as int))[k]);
                }
            }
        }
        i = i + 1;
    }
    assert(samples@.take(samples@.len() as int) =~= samples@);
    bytes
}

fn push_word(bytes: &mut Vec<u8>, n: u32)
    ensures
        final(bytes)@ == old(bytes)@ + seq![
            byte_at(n as int, 0),
            byte_at(n as int, 1),
            byte_at(n as int, 2),
            byte_at(n as int, 3),
        ],
{
    bytes.push((n % 256) as u8);
    bytes.push((n / 256 % 256) as u8);
    bytes.push((n / 65536 % 256) as u8);
    bytes.push((n / 16777216) as u8);
    assert(bytes@ =~= old(bytes)@ + seq![
        byte_at(n as int, 0),
        byte_at(n as int, 1),
        byte_at(n as int, 2),
        byte_at(n as int, 3),
    ]);
}

/// 32 bit floating point samples, given by their bits, as little-endian bytes.
pub fn encode_f32_bits(samples: &Vec<u32>) -> (bytes: Vec<u8>)
    ensures
        bytes@ == words_le(samples@),
{
    let mut bytes: Vec<u8> = Vec::new();
    let mut i: usize = 0;
    while i < samples.len()
        invariant
            i <= samples@.len(),
            bytes@ == words_le(samples@.take(i as int)),
        decreases samples@.len() - i,
    {
        let ghost before = bytes@;
        push_word(&mut bytes, samples[i]);
        assert(bytes@ =~= words_le(samples@.take(i + 1))) by {
            assert forall|k: int| 0 <= k < bytes@.len() implies bytes@[k] == words_le(
                samples@.take(i + 1),
            )[k] by {
                if k < 4 * i {
                    assert(before[k] == words_le(samples@.take(i as int))[k]);
                }
            }
        }
        i = i + 1;
    }
    assert(samples@.take(samples@.len() as int) =~= samples@);
    bytes
}

/// 24 bit samples, each held in 32 bits, as little-endian bytes.
pub fn encode_s24(samples: &Vec<i32>) -> (bytes: Vec<u8>)
    ensures
        bytes@ == s24le(samples@),
{
    let mut bytes: Vec<u8> = Vec::new();
    let mut i: usize = 0;
    while i < samples.len()
        invariant
            i <= samples@.len(),
            bytes@ == s24le(samples@.take(i as int)),
        decreases samples@.len() - i,
    {
        let ghost before = bytes@;
        let sample: i32 = samples[i];
        let n: u32 = if sample < 0 {
            (sample as i64 + 4294967296) as u32
        } else {
            sample as u32
        };
        push_word(&mut bytes, n);
        assert(bytes@ =~= s24le(samples@.take(i + 1))) by {
            assert forall|k: int| 0 <= k < bytes@.len() implies bytes@[k] == s24le(
                samples@.take(i + 1),
            )[k] by {
                if k < 4 * i {
                    assert(before[k] == s24le(samples@.take(i as int))[k]);
                }
            }
        }
        i = i + 1;
    }
    assert(samples@.take(samples@.len() as int) =~= samples@);
    bytes
}

/// Encoded 16 bit audio holds two bytes for each sample, and the samples can be read back from it.
pub proof fn law_s16le_reads_back(samples: Seq<i16>, i: int)
    requires
        0 <= i < samples.len(),
    ensures
        s16le(samples).len() == 2 * samples.len(),
        ({
            let n = s16le(samples)[2 * i] + 256 * s16le(samples)[2 * i + 1];
            samples[i] == (if n >= 32768 {
                n - 65536
            } else {
                n
            })
        }),
{
}

/// What a sink is made for.
#[derive(Debug)]
pub struct SinkConfig {
    pub format: AudioFormat,
    pub sample_rate: u32,
    pub channels: u16,
    pub scope: String,
    pub ctx: EventContext,
}

/// The longest time span that the pacing can express, in nanoseconds.
pub const MAX_SPAN_NS: u128 = 18446744073709551615999999999;

/// The clock by which audio is let through in real time.
#[derive(Clone, Copy, Debug, PartialEq, Eq, Structural)]
pub struct Pacer {
    /// When the first chunk came, in nanoseconds.
    pub start_ns: Option<u128>,
    /// How long the audio so far plays, in nanoseconds.
    pub expected_ns: u128,
}

impl Pacer {
    /// The times are within what the pacing can express.
    pub open spec fn wf(self) -> bool {
        &&& self.expected_ns <= MAX_SPAN_NS
        &&& self.start_ns is Some ==> self.start_ns->0 <= MAX_SPAN_NS
    }

    pub fn new() -> (pacer: Pacer)
        ensures
            pacer.wf(),
            pacer == fresh_pacer(),
    {
        Pacer { start_ns: None, expected_ns: 0 }
    }

    /// Takes in a chunk that plays for `duration_ns`. The first chunk starts the clock at
    /// `opened_ns`. Returns how long to wait, as of `now_ns`, until all audio before the chunk's
    /// end has had its time.
    pub fn pace(&mut self, duration_ns: u128, opened_ns: u128, now_ns: u128) -> (wait_ns: u128)
        requires
            old(self).wf(),
            opened_ns <= MAX_SPAN_NS,
            old(self).expected_ns + duration_ns <= MAX_SPAN_NS,
        ensures
            final(self).wf(),
            *final(self) == paced(*old(self), duration_ns, opened_ns),
            wait_ns == time_left(*final(self), now_ns),
    {
        let start: u128 = match self.start_ns {
            Some(s) => s,
            None => opened_ns,
        };
        self.start_ns = Some(start);
        self.expected_ns = self.expected_ns + duration_ns;
        let target: u128 = start + self.expected_ns;
        if target > now_ns {
            target - now_ns
        } else {
            0
        }
    }
}

/// The clock before any audio.
pub open spec fn fresh_pacer() -> Pacer {
    Pacer { start_ns: None, expected_ns: 0 }
}

/// The clock after a chunk.
pub open spec fn paced(pacer: Pacer, duration_ns: u128, opened_ns: u128) -> Pacer {
    Pacer {
        start_ns: match pacer.start_ns {
            Some(s) => Some(s),
            None => Some(opened_ns),
        },
        expected_ns: (pacer.expected_ns + duration_ns) as u128,
    }
}

/// How long, as of `now_ns`, until the audio so far has had its time.
pub open spec fn time_left(pacer: Pacer, now_ns: u128) -> int
    recommends
        pacer.start_ns is Some,
{
    let target = pacer.start_ns->0 + pacer.expected_ns;
    if target > now_ns {
        target - now_ns
    } else {
        0
    }
}

/// A chunk as the pacing sees it.
pub struct PacedChunk {
    pub duration_ns: u128,
    pub opened_ns: u128,
}

/// How long a series of chunks plays.
pub open spec fn total_ns(chunks: Seq<PacedChunk>) -> nat
    decreases chunks.len(),
{
    if chunks.len() == 0 {
        0
    } else {
        total_ns(chunks.drop_last()) + chunks.last().duration_ns as nat
    }
}

/// The clock after a series of chunks.
pub open spec fn pacer_after(chunks: Seq<PacedChunk>) -> Pacer
    decreases chunks.len(),
{
    if chunks.len() == 0 {
        fresh_pacer()
    } else {
        paced(
            pacer_after(chunks.drop_last()),
            chunks.last().duration_ns,
            chunks.last().opened_ns,
        )
    }
}

/// Audio is let through in real time: however the chunks are cut, waiting as told ends no earlier
/// than the first chunk's start plus the time that all chunks play, and no later than that or now.
pub proof fn law_realtime(chunks: Seq<PacedChunk>, now_ns: u128)
    requires
        chunks.len() > 0,
        total_ns(chunks) <= MAX_SPAN_NS,
    ensures
        ({
            let target = chunks.first().opened_ns + total_ns(chunks);
            now_ns + time_left(pacer_after(chunks), now_ns) == (if target > now_ns {
                target
            } else {
                now_ns as int
            })
        }),
{
    lemma_pacer_total(chunks);
}

proof fn lemma_pacer_total(chunks: Seq<PacedChunk>)
    requires
        total_ns(chunks) <= MAX_SPAN_NS,
    ensures
        pacer_after(chunks).expected_ns == total_ns(chunks),
        chunks.len() == 0 ==> pacer_after(chunks).start_ns is None,
        chunks.len() > 0 ==> pacer_after(chunks).start_ns == Some(chunks.first().opened_ns),
    decreases chunks.len(),
{
    if chunks.len() > 0 {
        lemma_pacer_total(chunks.drop_last());
        if chunks.len() > 1 {
            assert(chunks.drop_last().first() == chunks.first());
        }
    }
}

/// The sink that a player writes to.
#[derive(Debug)]
pub struct ChannelSink {
    pub config: SinkConfig,
    pub pacer: Pacer,
    /// Some audio has come through this sink.
    pub first_chunk_logged: bool,
}

/// What a chunk led to.
#[derive(Debug)]
pub struct ChunkReport {
    pub logs: Vec<LogEvent>,
    /// A line for the process's error output.
    pub console: Option<String>,
    pub events: Vec<ConnectEvent>,
}

/// The message that announces the first audio.
pub open spec fn first_chunk_message(config: SinkConfig, len: nat) -> Seq<char> {
    "first pcm chunk: bytes="@ + decimal(len) + " sample_rate="@ + decimal(config.sample_rate as nat)
        + " channels="@ + decimal(config.channels as nat)
}

/// A chunk of `len` bytes is the first audio that comes through a sink.
pub open spec fn is_first_chunk(first_chunk_logged: bool, len: nat) -> bool {
    !first_chunk_logged && len > 0
}

/// The events that a chunk leads to: the time to the first audio, once for all sinks of a stream.
pub open spec fn chunk_events(
    first_chunk_logged: bool,
    flags: StreamFlags,
    ctx: EventContextView,
    len: nat,
    elapsed_ms: u64,
    listening: bool,
) -> Seq<ConnectEventView> {
    if is_first_chunk(first_chunk_logged, len) && listening && !flags.metric_sent {
        seq![metric_event(ctx, "first_pcm_ms"@, Some(clamp_ms(elapsed_ms as int)), None)]
    } else {
        Seq::empty()
    }
}

/// The flags after a chunk.
pub open spec fn chunk_flags(
    first_chunk_logged: bool,
    flags: StreamFlags,
    len: nat,
    epoch_ms: u64,
    listening: bool,
) -> StreamFlags {
    let first = is_first_chunk(first_chunk_logged, len);
    StreamFlags {
        first_chunk: flags.first_chunk || first,
        metric_sent: flags.metric_sent || (first && listening),
        last_pcm_at: if len > 0 {
            epoch_ms
        } else {
            flags.last_pcm_at
        },
        ..flags
    }
}

/// How many bytes the pacing counts for one sample.
pub open spec fn bytes_per_sample(format: AudioFormat) -> nat {
    match format {
        AudioFormat::S24 => 3,
        AudioFormat::S32 => 4,
        AudioFormat::F32 => 4,
        _ => 2,
    }
}

impl ChannelSink {
    pub fn new(config: SinkConfig) -> (sink: ChannelSink)
        ensures
            sink.config == config,
            sink.pacer == fresh_pacer(),
            sink.pacer.wf(),
            !sink.first_chunk_logged,
    {
        ChannelSink { config, pacer: Pacer::new(), first_chunk_logged: false }
    }

    /// The lines that log the start of playback.
    pub fn start(&self, logging: bool) -> (logs: Vec<LogEvent>)
        ensures
            log_views(logs@) == log_line(
                logging,
                "debug"@,
                "sink start"@,
                self.config.scope@,
                self.config.ctx@,
            ),
    {
        let mut logs: Vec<LogEvent> = Vec::new();
        assert(log_views(logs@) =~= Seq::empty());
        push_log(
            &mut logs,
            logging,
            "debug",
            "sink start",
            self.config.scope.as_str(),
            &self.config.ctx,
        );
        assert(log_views(logs@) =~= log_line(
            logging,
            "debug"@,
            "sink start"@,
            self.config.scope@,
            self.config.ctx@,
        ));
        logs
    }

    fn announcement(&self, len: usize) -> (message: String)
        ensures
            message@ == first_chunk_message(self.config, len as nat),
    {
        concat("first pcm chunk: bytes=", decimal_text(len as u128).as_str()).concat(
            " sample_rate=",
        ).concat(decimal_text(self.config.sample_rate as u128).as_str()).concat(
            " channels=",
        ).concat(decimal_text(self.config.channels as u128).as_str())
    }

    /// Takes in a chunk of `len` bytes, `elapsed_ms` after the start of the stream, at the time
    /// `epoch_ms` in milliseconds since the epoch.
    pub fn write(
        &mut self,
        flags: &mut StreamFlags,
        len: usize,
        elapsed_ms: u64,
        epoch_ms: u64,
        logging: bool,
        listening: bool,
    ) -> (report: ChunkReport)
        ensures
            ({
                let first = is_first_chunk(old(self).first_chunk_logged, len as nat);
                let message = first_chunk_message(old(self).config, len as nat);
                &&& log_views(report.logs@) == (if first {
                    log_line(
                        logging,
                        "info"@,
                        message,
                        old(self).config.scope@,
                        old(self).config.ctx@,
                    )
                } else {
                    Seq::empty()
                })
                &&& report.console is Some <==> first
                &&& first ==> report.console->0@ == "[node-librespot] "@ + message
                &&& final(self).first_chunk_logged == (old(self).first_chunk_logged || first)
            }),
            event_views(report.events@) == chunk_events(
                old(self).first_chunk_logged,
                *old(flags),
                old(self).config.ctx@,
                len as nat,
                elapsed_ms,
                listening,
            ),
            *final(flags) == chunk_flags(
                old(self).first_chunk_logged,
                *old(flags),
                len as nat,
                epoch_ms,
                listening,
            ),
            final(self).config == old(self).config,
            final(self).pacer == old(self).pacer,
    {
        let mut logs: Vec<LogEvent> = Vec::new();
        let mut events: Vec<ConnectEvent> = Vec::new();
        let mut console: Option<String> = None;
        let ghost logged = self.first_chunk_logged;
        let ghost flags0 = *flags;
        assert(log_views(logs@) =~= Seq::empty());
        if !self.first_chunk_logged && len > 0 {
            self.first_chunk_logged = true;
            flags.first_chunk = true;
            let message = self.announcement(len);
            push_log(
                &mut logs,
                logging,
                "info",
                message.as_str(),
                self.config.scope.as_str(),
                &self.config.ctx,
            );
            console = Some(concat("[node-librespot] ", message.as_str()));
            if listening && !flags.metric_sent {
                flags.metric_sent = true;
                events.push(
                    ConnectEvent::metric(
                        &self.config.ctx,
                        "first_pcm_ms",
                        Some(clamp_to_u32(elapsed_ms)),
                        None,
                    ),
                );
            }
            assert(log_views(logs@) =~= log_line(
                logging,
                "info"@,
                message@,
                self.config.scope@,
                self.config.ctx@,
            ));
        }
        if len > 0 {
            flags.last_pcm_at = epoch_ms;
        }
        assert(event_views(events@) =~= chunk_events(
            logged,
            flags0,
            self.config.ctx@,
            len as nat,
            elapsed_ms,
            listening,
        ));
        ChunkReport { logs, console, events }
    }

    /// How many frames, of one sample for each channel, the pacing counts in `len` bytes.
    pub fn frame_count(&self, len: usize) -> (frames: usize)
        requires
            self.config.channels > 0,
        ensures
            frames == frames_in(self.config, len as nat),
    {
        let sample_bytes: usize = match self.config.format {
            AudioFormat::S24 => 3,
            AudioFormat::S32 => 4,
            AudioFormat::F32 => 4,
            _ => 2,
        };
        let channels: usize = self.config.channels as usize;
        assert(1 <= sample_bytes * channels <= 4 * 65535) by (nonlinear_arith)
            requires
                2 <= sample_bytes <= 4,
                1 <= channels <= 65535,
        ;
        len / (sample_bytes * channels)
    }

    /// How long `len` bytes play, in nanoseconds.
    pub fn play_ns(&self, len: usize) -> (ns: u128)
        requires
            self.config.channels > 0,
            self.config.sample_rate > 0,
        ensures
            ns == chunk_ns(self.config, len as nat),
    {
        playing_ns(self.frame_count(len), self.config.sample_rate)
    }

    /// Takes in a chunk of `len` bytes for the pacing. The first chunk starts the clock at
    /// `opened_ns`. Returns how long to wait, as of `now_ns`.
    pub fn pace(&mut self, len: usize, opened_ns: u128, now_ns: u128) -> (wait_ns: u128)
        requires
            old(self).pacer.wf(),
            old(self).config.channels > 0,
            old(self).config.sample_rate > 0,
            opened_ns <= MAX_SPAN_NS,
            old(self).pacer.expected_ns + chunk_ns(old(self).config, len as nat) <= MAX_SPAN_NS,
        ensures
            final(self).pacer.wf(),
            final(self).pacer == paced(
                old(self).pacer,
                chunk_ns(old(self).config, len as nat) as u128,
                opened_ns,
            ),
            wait_ns == time_left(final(self).pacer, now_ns),
            final(self).config == old(self).config,
            final(self).first_chunk_logged == old(self).first_chunk_logged,
    {
        let duration_ns: u128 = self.play_ns(len);
        self.pacer.pace(duration_ns, opened_ns, now_ns)
    }
}

/// How many frames, of one sample for each channel, the pacing counts in `len` bytes.
pub open spec fn frames_in(config: SinkConfig, len: nat) -> nat
    recommends
        config.channels > 0,
{
    len / (bytes_per_sample(config.format) * config.channels as nat)
}

/// How long a chunk of `len` bytes plays, in nanoseconds.
pub open spec fn chunk_ns(config: SinkConfig, len: nat) -> nat {
    frames_ns(frames_in(config, len), config.sample_rate as nat)
}

/// A chunk as it is written: its length, and when it is taken in.
pub struct WrittenChunk {
    pub len: nat,
    pub opened_ns: u128,
}

/// Written chunks as the pacing sees them.
pub open spec fn paced_chunks(config: SinkConfig, chunks: Seq<WrittenChunk>) -> Seq<PacedChunk> {
    chunks.map_values(
        |c: WrittenChunk|
            PacedChunk { duration_ns: chunk_ns(config, c.len) as u128, opened_ns: c.opened_ns },
    )
}

/// How many frames are written in all.
pub open spec fn total_frames(config: SinkConfig, chunks: Seq<WrittenChunk>) -> nat
    decreases chunks.len(),
{
    if chunks.len() == 0 {
        0
    } else {
        total_frames(config, chunks.drop_last()) + frames_in(config, chunks.last().len)
    }
}

/// How long written chunks play in all, in nanoseconds.
pub open spec fn written_ns(config: SinkConfig, chunks: Seq<WrittenChunk>) -> nat
    decreases chunks.len(),
{
    if chunks.len() == 0 {
        0
    } else {
        written_ns(config, chunks.drop_last()) + chunk_ns(config, chunks.last().len)
    }
}

/// `ns` nanoseconds are the time that all frames of the chunks play at the sample rate, but for half
/// a nanosecond for each chunk and one part in two to the 51st.
pub open spec fn nearly(config: SinkConfig, chunks: Seq<WrittenChunk>, ns: int) -> bool {
    let exact = total_frames(config, chunks) * NANOS_PER_SECOND;
    let got = ns * config.sample_rate;
    let slack = LEAST_54_BITS * (chunks.len() * config.sample_rate) + 8 * exact;
    &&& 2 * LEAST_54_BITS * (got - exact) <= slack
    &&& 2 * LEAST_54_BITS * (exact - got) <= slack
}

/// The output of a sink never runs ahead of real time. The clock that paces it starts with the first
/// chunk and never starts again; it expects the time that all frames so far play at the sample
/// rate, but for half a nanosecond for each chunk and one part in two to the 51st; and waiting as
/// told ends when that time is over, or now where it is over already.
pub proof fn law_output_in_real_time(config: SinkConfig, chunks: Seq<WrittenChunk>, now_ns: u128)
    requires
        config.sample_rate > 0,
        chunks.len() > 0,
        written_ns(config, chunks) <= MAX_SPAN_NS,
    ensures
        ({
            let pacer = pacer_after(paced_chunks(config, chunks));
            let target = chunks.first().opened_ns + pacer.expected_ns;
            &&& pacer.start_ns == Some(chunks.first().opened_ns)
            &&& pacer.expected_ns == written_ns(config, chunks)
            &&& nearly(config, chunks, pacer.expected_ns as int)
            &&& now_ns + time_left(pacer, now_ns) == (if target > now_ns {
                target
            } else {
                now_ns as int
            })
        }),
{
    lemma_written_total(config, chunks);
    lemma_written_close(config, chunks);
    lemma_pacer_total(paced_chunks(config, chunks));
}

proof fn lemma_written_total(config: SinkConfig, chunks: Seq<WrittenChunk>)
    requires
        written_ns(config, chunks) <= MAX_SPAN_NS,
    ensures
        total_ns(paced_chunks(config, chunks)) == written_ns(config, chunks),
    decreases chunks.len(),
{
    if chunks.len() > 0 {
        lemma_written_total(config, chunks.drop_last());
        assert(paced_chunks(config, chunks).drop_last() =~= paced_chunks(
            config,
            chunks.drop_last(),
        ));
    }
}

proof fn lemma_written_close(config: SinkConfig, chunks: Seq<WrittenChunk>)
    requires
        config.sample_rate > 0,
    ensures
        nearly(config, chunks, written_ns(config, chunks) as int),
    decreases chunks.len(),
{
    let rate = config.sample_rate as int;
    let all = written_ns(config, chunks) as int;
    if chunks.len() > 0 {
        let before = chunks.drop_last();
        lemma_written_close(config, before);
        let ns = chunk_ns(config, chunks.last().len) as int;
        law_playing_time(frames_in(config, chunks.last().len), config.sample_rate as nat);
        let most = written_ns(config, before) as int;
        assert(all * rate == most * rate + ns * rate) by (nonlinear_arith)
            requires
                all == most + ns,
        ;
        assert(chunks.len() * rate == before.len() * rate + rate) by (nonlinear_arith)
            requires
                chunks.len() == before.len() + 1,
        ;
        let p = LEAST_54_BITS as int;
        let count = before.len() * rate;
        let got = most * rate;
        let exact = total_frames(config, before) * NANOS_PER_SECOND;
        let more = ns * rate;
        let frames = frames_in(config, chunks.last().len) * NANOS_PER_SECOND;
        assert(2 * p * (got + more - (exact + frames)) <= p * (count + rate) + 8 * (exact + frames)
            && 2 * p * (exact + frames - (got + more)) <= p * (count + rate) + 8 * (exact + frames))
            by (nonlinear_arith)
            requires
                2 * p * (got - exact) <= p * count + 8 * exact,
                2 * p * (exact - got) <= p * count + 8 * exact,
                2 * p * (more - frames) <= p * rate + 8 * frames,
                2 * p * (frames - more) <= p * rate + 8 * frames,
        ;
        assert(total_frames(config, chunks) * NANOS_PER_SECOND == exact + frames);
        assert(nearly(config, chunks, all));
    } else {
        assert(all * rate == 0) by (nonlinear_arith)
            requires
                all == 0,
        ;
        assert(chunks.len() * rate == 0) by (nonlinear_arith)
            requires
                chunks.len() == 0,
        ;
        assert(total_frames(config, chunks) * NANOS_PER_SECOND == 0);
        assert(nearly(config, chunks, all));
    }
}

} // verus!
