//! The handles that callers hold: what each of their methods asks the running tasks to do.

use vstd::prelude::*;

verus! {

/// The sample rate of all audio that is delivered, in samples per second.
pub const SAMPLE_RATE: u32 = 44100;

/// The number of channels of all audio that is delivered.
pub const CHANNELS: u16 = 2;

/// Something that a handle asks of the task behind it.
#[derive(Clone, Copy, Debug, PartialEq, Eq, Structural)]
pub enum HandleCommand {
    /// Raise the flag that tells all tasks to end.
    RaiseStopFlag,
    /// Signal the task that waits for the end, and drop the channel to it.
    SignalStop,
    /// Shut the connect device down.
    Shutdown,
    /// Abort the task.
    AbortTask,
    Play,
    Pause,
    Next,
    Prev,
}

/// The handle of a connect host.
#[derive(Debug)]
pub struct ConnectHandle {
    /// The task that waits for the end has not been signalled yet.
    pub stop_pending: bool,
    pub sample_rate: u32,
    pub channels: u16,
}

/// What stopping a connect host asks for. The signal is part of it the first time only.
pub open spec fn host_stop_commands(stop_pending: bool) -> Seq<HandleCommand> {
    if stop_pending {
        seq![
            HandleCommand::RaiseStopFlag,
            HandleCommand::SignalStop,
            HandleCommand::Shutdown,
            HandleCommand::AbortTask,
        ]
    } else {
        seq![HandleCommand::RaiseStopFlag, HandleCommand::Shutdown, HandleCommand::AbortTask]
    }
}

impl ConnectHandle {
    /// The handle of a host that has just been started.
    pub fn open() -> (handle: ConnectHandle)
        ensures
            handle.stop_pending,
            handle.sample_rate == SAMPLE_RATE,
            handle.channels == CHANNELS,
    {
        ConnectHandle { stop_pending: true, sample_rate: SAMPLE_RATE, channels: CHANNELS }
    }

    pub fn stop(&mut self) -> (commands: Vec<HandleCommand>)
        ensures
            commands@ == host_stop_commands(old(self).stop_pending),
            *final(self) == (ConnectHandle { stop_pending: false, ..*old(self) }),
    {
        let mut commands: Vec<HandleCommand> = Vec::new();
        commands.push(HandleCommand::RaiseStopFlag);
        if self.stop_pending {
            self.stop_pending = false;
            commands.push(HandleCommand::SignalStop);
        }
        commands.push(HandleCommand::Shutdown);
        commands.push(HandleCommand::AbortTask);
        assert(commands@ =~= host_stop_commands(old(self).stop_pending));
        commands
    }

    /// The same as [`ConnectHandle::stop`].
    pub fn shutdown(&mut self) -> (commands: Vec<HandleCommand>)
        ensures
            commands@ == host_stop_commands(old(self).stop_pending),
            *final(self) == (ConnectHandle { stop_pending: false, ..*old(self) }),
    {
        self.stop()
    }

    /// The same as [`ConnectHandle::stop`].
    pub fn close(&mut self) -> (commands: Vec<HandleCommand>)
        ensures
            commands@ == host_stop_commands(old(self).stop_pending),
            *final(self) == (ConnectHandle { stop_pending: false, ..*old(self) }),
    {
        self.stop()
    }

    pub fn play(&self) -> (command: HandleCommand)
        ensures
            command == HandleCommand::Play,
    {
        HandleCommand::Play
    }

    pub fn pause(&self) -> (command: HandleCommand)
        ensures
            command == HandleCommand::Pause,
    {
        HandleCommand::Pause
    }

    pub fn next(&self) -> (command: HandleCommand)
        ensures
            command == HandleCommand::Next,
    {
        HandleCommand::Next
    }

    pub fn prev(&self) -> (command: HandleCommand)
        ensures
            command == HandleCommand::Prev,
    {
        HandleCommand::Prev
    }

    pub fn sample_rate(&self) -> (rate: u32)
        ensures
            rate == self.sample_rate,
    {
        self.sample_rate
    }

    pub fn channels(&self) -> (channels: u16)
        ensures
            channels == self.channels,
    {
        self.channels
    }
}

/// The handle of a stream.
#[derive(Debug)]
pub struct StreamHandle {
    /// The stream has not been signalled to stop yet.
    pub stop_pending: bool,
    pub sample_rate: u32,
    pub channels: u16,
}

/// What stopping a stream asks for: the signal, the first time only.
pub open spec fn stream_stop_commands(stop_pending: bool) -> Seq<HandleCommand> {
    if stop_pending {
        seq![HandleCommand::SignalStop]
    } else {
        Seq::empty()
    }
}

impl StreamHandle {
    /// The handle of a stream that has just been started.
    pub fn open() -> (handle: StreamHandle)
        ensures
            handle.stop_pending,
            handle.sample_rate == SAMPLE_RATE,
            handle.channels == CHANNELS,
    {
        StreamHandle { stop_pending: true, sample_rate: SAMPLE_RATE, channels: CHANNELS }
    }

    pub fn stop(&mut self) -> (commands: Vec<HandleCommand>)
        ensures
            commands@ == stream_stop_commands(old(self).stop_pending),
            *final(self) == (StreamHandle { stop_pending: false, ..*old(self) }),
    {
        let mut commands: Vec<HandleCommand> = Vec::new();
        if self.stop_pending {
            self.stop_pending = false;
            commands.push(HandleCommand::SignalStop);
        }
        assert(commands@ =~= stream_stop_commands(old(self).stop_pending));
        commands
    }

    pub fn sample_rate(&self) -> (rate: u32)
        ensures
            rate == self.sample_rate,
    {
        self.sample_rate
    }

    pub fn channels(&self) -> (channels: u16)
        ensures
            channels == self.channels,
    {
        self.channels
    }
}

/// The handle of a download.
#[derive(Debug)]
pub struct DownloadHandle {}

impl DownloadHandle {
    pub fn stop(&mut self) -> (commands: Vec<HandleCommand>)
        ensures
            commands@ == seq![HandleCommand::RaiseStopFlag, HandleCommand::AbortTask],
            *final(self) == *old(self),
    {
        let mut commands: Vec<HandleCommand> = Vec::new();
        commands.push(HandleCommand::RaiseStopFlag);
        commands.push(HandleCommand::AbortTask);
        assert(commands@ =~= seq![HandleCommand::RaiseStopFlag, HandleCommand::AbortTask]);
        commands
    }
}

/// Everything that a series of stops asks for, of a host or of a stream.
pub open spec fn all_stop_commands(host: bool, stop_pending: bool, stops: nat) -> Seq<
    HandleCommand,
>
    decreases stops,
{
    if stops == 0 {
        Seq::empty()
    } else {
        (if host {
            host_stop_commands(stop_pending)
        } else {
            stream_stop_commands(stop_pending)
        }) + all_stop_commands(host, false, (stops - 1) as nat)
    }
}

/// How many signals there are among the commands.
pub open spec fn signals(commands: Seq<HandleCommand>) -> nat {
    commands.filter(|c: HandleCommand| c == HandleCommand::SignalStop).len()
}

/// However often a host or a stream is stopped, the task behind it is signalled once.
pub proof fn law_signalled_once(host: bool, stops: nat)
    requires
        stops > 0,
    ensures
        signals(all_stop_commands(host, true, stops)) == 1,
{
    let first = if host {
        host_stop_commands(true)
    } else {
        stream_stop_commands(true)
    };
    let rest = all_stop_commands(host, false, (stops - 1) as nat);
    let p = |c: HandleCommand| c == HandleCommand::SignalStop;
    lemma_no_more_signals(host, (stops - 1) as nat);
    Seq::filter_distributes_over_add(first, rest, p);
    reveal_with_fuel(Seq::filter, 5);
    assert(first.filter(p).len() == 1);
}

proof fn lemma_no_more_signals(host: bool, stops: nat)
    ensures
        signals(all_stop_commands(host, false, stops)) == 0,
    decreases stops,
{
    let p = |c: HandleCommand| c == HandleCommand::SignalStop;
    reveal_with_fuel(Seq::filter, 4);
    if stops > 0 {
        let first = if host {
            host_stop_commands(false)
        } else {
            stream_stop_commands(false)
        };
        lemma_no_more_signals(host, (stops - 1) as nat);
        Seq::filter_distributes_over_add(
            first,
            all_stop_commands(host, false, (stops - 1) as nat),
            p,
        );
        assert(first.filter(p).len() == 0);
    }
}

/// To stop a host is to raise its flag first and to shut it down and abort its task last; the first
/// stop also signals the task, before that. To stop a stream is to signal it, the first time.
pub proof fn law_stop_commands(stop_pending: bool)
    ensures
        ({
            let host = host_stop_commands(stop_pending);
            let n = host.len() as int;
            &&& n == (if stop_pending { 4int } else { 3int })
            &&& host[0] == HandleCommand::RaiseStopFlag
            &&& host[n - 2] == HandleCommand::Shutdown
            &&& host[n - 1] == HandleCommand::AbortTask
            &&& stop_pending ==> host[1] == HandleCommand::SignalStop
        }),
        stream_stop_commands(stop_pending).len() == (if stop_pending { 1int } else { 0int }),
        stop_pending ==> stream_stop_commands(stop_pending)[0] == HandleCommand::SignalStop,
{
}

} // verus!
