//! The watch over a stream's or a host's audio output.

use vstd::prelude::*;

use crate::events::{
    event_views, metric_event, plain_event, ConnectEvent, ConnectEventView, EventContext,
    EventContextView,
};
use crate::stream::StreamFlags;

verus! {

/// How often the output is looked at, in milliseconds.
pub const HEALTH_INTERVAL_MS: u64 = 5000;

/// The output has stalled once no audio has come for longer than this, in milliseconds.
pub const STALL_LIMIT_MS: u64 = 2000;

/// The state of the output.
#[derive(Clone, Copy, Debug, PartialEq, Eq, Structural)]
pub enum PcmHealth {
    Missing,
    Stalled,
    Flowing,
}

/// For how long no audio has come.
pub open spec fn silence_ms(last_ms: u64, now_ms: u64) -> int {
    if now_ms >= last_ms {
        now_ms - last_ms
    } else {
        0
    }
}

/// The state of the output at `now_ms` when audio last came at `last_ms`, or never if that is zero.
pub open spec fn pcm_health(last_ms: u64, now_ms: u64) -> PcmHealth {
    if last_ms == 0 {
        PcmHealth::Missing
    } else if silence_ms(last_ms, now_ms) > STALL_LIMIT_MS {
        PcmHealth::Stalled
    } else {
        PcmHealth::Flowing
    }
}

/// The code that reports a state.
pub open spec fn health_code(health: PcmHealth) -> Seq<char> {
    match health {
        PcmHealth::Missing => "pcm_missing"@,
        PcmHealth::Stalled => "pcm_stalled"@,
        PcmHealth::Flowing => "pcm_ok"@,
    }
}

/// The message that reports a state.
pub open spec fn health_message(health: PcmHealth) -> Seq<char> {
    match health {
        PcmHealth::Missing => "no pcm received yet"@,
        PcmHealth::Stalled => "pcm stalled"@,
        PcmHealth::Flowing => "pcm flowing"@,
    }
}

/// The event that reports a state.
pub open spec fn health_event(ctx: EventContextView, health: PcmHealth) -> ConnectEventView {
    ConnectEventView {
        error_code: Some(health_code(health)),
        error_message: Some(health_message(health)),
        ..plain_event("health"@, ctx)
    }
}

/// A number of milliseconds, cut to what a metric can hold.
pub open spec fn clamp_ms(ms: int) -> u32 {
    if ms > u32::MAX {
        u32::MAX
    } else {
        ms as u32
    }
}

/// The metric that reports a stall.
pub open spec fn stall_event(ctx: EventContextView, silence: int) -> ConnectEventView {
    metric_event(ctx, "buffer_stall_ms"@, Some(clamp_ms(silence)), Some("pcm stalled"@))
}

/// The watch over one output.
#[derive(Clone, Copy, Debug, PartialEq, Eq, Structural)]
pub struct HealthMonitor {
    /// The present stall has been reported as a metric.
    pub stall_reported: bool,
}

/// What a look at the output led to.
#[derive(Debug)]
pub struct HealthReport {
    /// The stream is over: the watch ends.
    pub done: bool,
    pub events: Vec<ConnectEvent>,
}

/// The events that a look at the output leads to: its state, and before that a metric where a stall
/// is seen that was not reported yet.
pub open spec fn health_events(
    monitor: HealthMonitor,
    flags: StreamFlags,
    ctx: EventContextView,
    now_ms: u64,
) -> Seq<ConnectEventView> {
    let health = pcm_health(flags.last_pcm_at, now_ms);
    if flags.stopped {
        Seq::empty()
    } else {
        (if health == PcmHealth::Stalled && !monitor.stall_reported {
            seq![stall_event(ctx, silence_ms(flags.last_pcm_at, now_ms))]
        } else {
            Seq::empty()
        }).push(health_event(ctx, health))
    }
}

/// The watch after a look at the output: a stall stays reported until audio flows again.
pub open spec fn health_monitor(
    monitor: HealthMonitor,
    flags: StreamFlags,
    now_ms: u64,
) -> HealthMonitor {
    if flags.stopped {
        monitor
    } else {
        match pcm_health(flags.last_pcm_at, now_ms) {
            PcmHealth::Missing => monitor,
            PcmHealth::Stalled => HealthMonitor { stall_reported: true },
            PcmHealth::Flowing => HealthMonitor { stall_reported: false },
        }
    }
}

/// A number of milliseconds, cut to what a metric can hold.
pub(crate) fn clamp_to_u32(ms: u64) -> (r: u32)
    ensures
        r == clamp_ms(ms as int),
{
    if ms > 0xffff_ffff {
        0xffff_ffff
    } else {
        ms as u32
    }
}

impl HealthMonitor {
    pub fn new() -> (monitor: HealthMonitor)
        ensures
            !monitor.stall_reported,
    {
        HealthMonitor { stall_reported: false }
    }

    /// Looks at the output at the time `now_ms`, in milliseconds since the epoch.
    pub fn tick(&mut self, flags: &StreamFlags, ctx: &EventContext, now_ms: u64) -> (report:
        HealthReport)
        ensures
            report.done == flags.stopped,
            event_views(report.events@) == health_events(*old(self), *flags, ctx@, now_ms),
            *final(self) == health_monitor(*old(self), *flags, now_ms),
    {
        let mut events: Vec<ConnectEvent> = Vec::new();
        let ghost monitor = *self;
        if flags.stopped {
            assert(event_views(events@) =~= Seq::empty());
            return HealthReport { done: true, events };
        }
        let last_ms: u64 = flags.last_pcm_at;
        let stall_ms: u64 = if now_ms >= last_ms {
            now_ms - last_ms
        } else {
            0
        };
        let health = if last_ms == 0 {
            PcmHealth::Missing
        } else if stall_ms > STALL_LIMIT_MS {
            PcmHealth::Stalled
        } else {
            PcmHealth::Flowing
        };
        let (code, message) = match health {
            PcmHealth::Missing => ("pcm_missing", "no pcm received yet"),
            PcmHealth::Stalled => ("pcm_stalled", "pcm stalled"),
            PcmHealth::Flowing => ("pcm_ok", "pcm flowing"),
        };
        if health == PcmHealth::Flowing {
            self.stall_reported = false;
        }
        if health == PcmHealth::Stalled && !self.stall_reported {
            self.stall_reported = true;
            events.push(
                ConnectEvent::metric(
                    ctx,
                    "buffer_stall_ms",
                    Some(clamp_to_u32(stall_ms)),
                    Some("pcm stalled".to_owned()),
                ),
            );
        }
        events.push(
            ConnectEvent {
                error_code: Some(code.to_owned()),
                error_message: Some(message.to_owned()),
                ..ConnectEvent::plain("health", ctx)
            },
        );
        assert(event_views(events@) =~= health_events(monitor, *flags, ctx@, now_ms));
        HealthReport { done: false, events }
    }
}

/// A look at the output: when audio last came, and the time of the look.
pub struct Look {
    pub last_ms: u64,
    pub now_ms: u64,
}

/// The flags of an output that runs and last gave audio at `last_ms`.
pub open spec fn running(last_ms: u64) -> StreamFlags {
    StreamFlags { last_pcm_at: last_ms, ..crate::stream::fresh_flags() }
}

/// The watch after a series of looks.
pub open spec fn monitor_after(monitor: HealthMonitor, looks: Seq<Look>) -> HealthMonitor
    decreases looks.len(),
{
    if looks.len() == 0 {
        monitor
    } else {
        health_monitor(
            monitor_after(monitor, looks.drop_last()),
            running(looks.last().last_ms),
            looks.last().now_ms,
        )
    }
}

/// How many stalls are reported in a series of looks.
pub open spec fn stalls_reported(
    monitor: HealthMonitor,
    ctx: EventContextView,
    looks: Seq<Look>,
) -> nat
    decreases looks.len(),
{
    if looks.len() == 0 {
        0
    } else {
        stalls_reported(monitor, ctx, looks.drop_last()) + (if health_events(
            monitor_after(monitor, looks.drop_last()),
            running(looks.last().last_ms),
            ctx,
            looks.last().now_ms,
        ).contains(
            stall_event(ctx, silence_ms(looks.last().last_ms, looks.last().now_ms)),
        ) {
            1nat
        } else {
            0
        })
    }
}

/// In how many of the looks audio is found to flow.
pub open spec fn flowing_looks(looks: Seq<Look>) -> nat
    decreases looks.len(),
{
    if looks.len() == 0 {
        0
    } else {
        flowing_looks(looks.drop_last()) + (if pcm_health(looks.last().last_ms, looks.last().now_ms)
            == PcmHealth::Flowing {
            1nat
        } else {
            0
        })
    }
}

/// A stall is reported once: for another report, audio must have flowed in between.
pub proof fn law_stall_reported_once(ctx: EventContextView, looks: Seq<Look>)
    ensures
        stalls_reported(HealthMonitor { stall_reported: false }, ctx, looks) <= flowing_looks(looks)
            + 1,
{
    lemma_stalls_bounded(ctx, looks);
}

proof fn lemma_stalls_bounded(ctx: EventContextView, looks: Seq<Look>)
    ensures
        ({
            let fresh = HealthMonitor { stall_reported: false };
            stalls_reported(fresh, ctx, looks) <= flowing_looks(looks) + (if monitor_after(
                fresh,
                looks,
            ).stall_reported {
                1int
            } else {
                0
            })
        }),
    decreases looks.len(),
{
    if looks.len() > 0 {
        let fresh = HealthMonitor { stall_reported: false };
        lemma_stalls_bounded(ctx, looks.drop_last());
        let before = monitor_after(fresh, looks.drop_last());
        let look = looks.last();
        let flags = running(look.last_ms);
        let events = health_events(before, flags, ctx, look.now_ms);
        let stall = stall_event(ctx, silence_ms(look.last_ms, look.now_ms));
        let state = health_event(ctx, pcm_health(look.last_ms, look.now_ms));
        assert(stall.event_type != state.event_type) by {
            reveal_strlit("metric");
            reveal_strlit("health");
            assert("metric"@[0] != "health"@[0]);
        }
        if events.contains(stall) {
            let i = choose|i: int| 0 <= i < events.len() && events[i] == stall;
            assert(pcm_health(look.last_ms, look.now_ms) == PcmHealth::Stalled
                && !before.stall_reported);
        }
    }
}

/// While the stream runs, every look reports the state of the output, as its last event; once it is
/// stopped, none reports anything.
pub proof fn law_every_look_reports(
    monitor: HealthMonitor,
    flags: StreamFlags,
    ctx: EventContextView,
    now_ms: u64,
)
    ensures
        flags.stopped ==> health_events(monitor, flags, ctx, now_ms).len() == 0,
        !flags.stopped ==> 1 <= health_events(monitor, flags, ctx, now_ms).len() <= 2
            && health_events(monitor, flags, ctx, now_ms).last() == health_event(
            ctx,
            pcm_health(flags.last_pcm_at, now_ms),
        ),
{
}

} // verus!
