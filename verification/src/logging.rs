//! Log levels, the log callback, and the log lines that announce playback trouble.

use vstd::prelude::*;
use vstd::string::*;

use crate::error::{failed, Error};
use crate::events::{log_views, EventContext, EventContextView, LogEvent, LogEventView};
use crate::text::{
    ascii_lower, contains, contains_text, lowercase, opt_view, same_text, to_lowercase, trim,
    trimmed,
};
use crate::text::{law_contained_part, law_contains_parts};

verus! {

/// The level of a log record.
#[derive(Clone, Copy, Debug, PartialEq, Eq, Structural)]
pub enum Level {
    Error,
    Warn,
    Info,
    Debug,
    Trace,
}

/// The records that are let through.
#[derive(Clone, Copy, Debug, PartialEq, Eq, Structural)]
pub enum LevelFilter {
    Off,
    Error,
    Warn,
    Info,
    Debug,
    Trace,
}

/// The name of a level, in lower case.
pub open spec fn level_name_of(level: Level) -> Seq<char> {
    match level {
        Level::Error => "error"@,
        Level::Warn => "warn"@,
        Level::Info => "info"@,
        Level::Debug => "debug"@,
        Level::Trace => "trace"@,
    }
}

/// The name of a level, in lower case.
pub fn level_name(level: Level) -> (name: &'static str)
    ensures
        name@ == level_name_of(level),
{
    match level {
        Level::Error => "error",
        Level::Warn => "warn",
        Level::Info => "info",
        Level::Debug => "debug",
        Level::Trace => "trace",
    }
}

/// The payload for a record that some module logged under `target`.
pub fn record_event(level: Level, message: String, target: String) -> (event: LogEvent)
    ensures
        event@ == (LogEventView {
            level: level_name_of(level),
            message: message@,
            scope: Some(target@),
            device_id: None,
            session_id: None,
        }),
{
    LogEvent {
        level: level_name(level).to_owned(),
        message,
        scope: Some(target),
        device_id: None,
        session_id: None,
    }
}

/// How handing a payload to an observer went.
#[derive(Clone, Copy, Debug, PartialEq, Eq, Structural)]
pub enum Delivery {
    Sent,
    QueueFull,
    QueueClosed,
}

/// Whether an observer stays subscribed: one that is merely slow does, one that is gone does not.
pub fn keep_observer(delivery: Delivery) -> (keep: bool)
    ensures
        keep == (delivery != Delivery::QueueClosed),
{
    match delivery {
        Delivery::Sent => true,
        Delivery::QueueFull => true,
        Delivery::QueueClosed => false,
    }
}

/// The state of the process-wide logger.
#[derive(Clone, Copy, Debug, PartialEq, Eq, Structural)]
pub struct LoggerState {
    /// The logger has been put in place.
    pub installed: bool,
    /// The records that are let through.
    pub max_level: LevelFilter,
}

/// What is to be done to set logging up.
#[derive(Clone, Copy, Debug, PartialEq, Eq, Structural)]
pub struct LoggerSetup {
    /// Add the caller's log callback to those that receive every record.
    pub register: bool,
    /// Install the process-wide logger, and let through what the state then says.
    pub install: bool,
}

impl LoggerState {
    /// The state before any setup: no logger, and nothing is let through.
    pub fn new() -> (state: LoggerState)
        ensures
            state == fresh_logger(),
    {
        LoggerState { installed: false, max_level: LevelFilter::Off }
    }
}

/// The state before any setup.
pub open spec fn fresh_logger() -> LoggerState {
    LoggerState { installed: false, max_level: LevelFilter::Off }
}

/// The records that a newly installed logger lets through.
pub fn initial_filter() -> (filter: LevelFilter)
    ensures
        filter == LevelFilter::Debug,
{
    LevelFilter::Debug
}

/// The state after a setup: the first one installs the logger and lets records up to `debug`
/// through, and a later one changes nothing.
pub open spec fn set_up(state: LoggerState) -> LoggerState {
    if state.installed {
        state
    } else {
        LoggerState { installed: true, max_level: LevelFilter::Debug }
    }
}

/// The state after a level was asked for: `filter` is the one that was named, if the name was known.
pub open spec fn levelled(state: LoggerState, filter: Option<LevelFilter>) -> LoggerState {
    match filter {
        Some(f) => LoggerState { max_level: f, ..set_up(state) },
        None => set_up(state),
    }
}

/// Sets logging up: every callback is registered, and the logger is installed the first time only.
pub fn init_native_logger(state: &mut LoggerState, has_callback: bool) -> (setup: LoggerSetup)
    ensures
        setup.register == has_callback,
        setup.install == !old(state).installed,
        *final(state) == set_up(*old(state)),
{
    let install = !state.installed;
    if install {
        state.installed = true;
        state.max_level = initial_filter();
    }
    LoggerSetup { register: has_callback, install }
}

/// A call that has to do with the logger.
pub enum LoggerCall {
    /// A setup, with a log callback or without one.
    SetUp { has_callback: bool },
    /// A level is asked for by a name that stands for this filter, or for none.
    Level { filter: Option<LevelFilter> },
}

/// The state after a series of calls in one process.
pub open spec fn logger_after(calls: Seq<LoggerCall>) -> LoggerState
    decreases calls.len(),
{
    if calls.len() == 0 {
        fresh_logger()
    } else {
        let before = logger_after(calls.drop_last());
        match calls.last() {
            LoggerCall::SetUp { has_callback } => set_up(before),
            LoggerCall::Level { filter } => levelled(before, filter),
        }
    }
}

/// The level that was chosen last in a series of calls; `debug` where none was.
pub open spec fn chosen_level(calls: Seq<LoggerCall>) -> LevelFilter
    decreases calls.len(),
{
    if calls.len() == 0 {
        LevelFilter::Debug
    } else {
        match calls.last() {
            LoggerCall::Level { filter: Some(f) } => f,
            _ => chosen_level(calls.drop_last()),
        }
    }
}

/// After any calls at all the logger is installed, and it lets through what was chosen last: neither
/// a later setup nor a level with an unknown name takes a choice back.
pub proof fn law_level_stays_chosen(calls: Seq<LoggerCall>)
    requires
        calls.len() > 0,
    ensures
        logger_after(calls).installed,
        logger_after(calls).max_level == chosen_level(calls),
    decreases calls.len(),
{
    if calls.len() > 1 {
        law_level_stays_chosen(calls.drop_last());
    } else {
        assert(calls.drop_last().len() == 0);
        reveal_with_fuel(logger_after, 2);
        reveal_with_fuel(chosen_level, 2);
    }
}

/// The filter that a name in lower case stands for.
pub open spec fn filter_named(name: Seq<char>) -> Option<LevelFilter> {
    if name == "off"@ {
        Some(LevelFilter::Off)
    } else if name == "error"@ {
        Some(LevelFilter::Error)
    } else if name == "warn"@ || name == "warning"@ {
        Some(LevelFilter::Warn)
    } else if name == "info"@ {
        Some(LevelFilter::Info)
    } else if name == "debug"@ {
        Some(LevelFilter::Debug)
    } else if name == "trace"@ {
        Some(LevelFilter::Trace)
    } else {
        None
    }
}

/// The filter that a name in lower case stands for.
pub fn filter_for(name: &str) -> (filter: Option<LevelFilter>)
    ensures
        filter == filter_named(name@),
{
    if same_text(name, "off") {
        Some(LevelFilter::Off)
    } else if same_text(name, "error") {
        Some(LevelFilter::Error)
    } else if same_text(name, "warn") || same_text(name, "warning") {
        Some(LevelFilter::Warn)
    } else if same_text(name, "info") {
        Some(LevelFilter::Info)
    } else if same_text(name, "debug") {
        Some(LevelFilter::Debug)
    } else if same_text(name, "trace") {
        Some(LevelFilter::Trace)
    } else {
        None
    }
}

/// `s` with its ASCII capitals in lower case.
pub open spec fn lower_ascii(s: Seq<char>) -> Seq<char> {
    s.map_values(|c: char| ascii_lower(c))
}

/// Chooses which records are let through. The logger is set up first, even where the name of the
/// level is then refused. White space round the name and the case of its letters do not matter.
pub fn set_log_level(state: &mut LoggerState, level: String) -> (r: (
    LoggerSetup,
    Result<LevelFilter, Error>,
))
    ensures
        !r.0.register,
        r.0.install == !old(state).installed,
        *final(state) == levelled(*old(state), filter_named(lowercase(trimmed(level@)))),
        level.is_ascii() ==> *final(state) == levelled(
            *old(state),
            filter_named(lower_ascii(trimmed(level@))),
        ),
        match filter_named(lowercase(trimmed(level@))) {
            Some(filter) => r.1 == Ok::<LevelFilter, Error>(filter),
            None => failed(r.1, "invalid log level: "@ + level@),
        },
        level.is_ascii() ==> match filter_named(lower_ascii(trimmed(level@))) {
            Some(filter) => r.1 == Ok::<LevelFilter, Error>(filter),
            None => failed(r.1, "invalid log level: "@ + level@),
        },
{
    let setup = init_native_logger(state, false);
    let bare = trim(level.as_str());
    proof {
        lemma_trimmed_ascii(level@);
    }
    let normalized = to_lowercase(bare);
    match filter_for(normalized.as_str()) {
        Some(filter) => {
            state.max_level = filter;
            (setup, Ok(filter))
        },
        None => (setup, Err(Error::with_detail("invalid log level: ", level.as_str()))),
    }
}

proof fn lemma_trimmed_ascii(s: Seq<char>)
    ensures
        vstd::utf8::is_ascii_chars(s) ==> vstd::utf8::is_ascii_chars(trimmed(s)),
    decreases s.len(),
{
    if s.len() > 0 {
        lemma_trimmed_ascii(s.drop_first());
        lemma_trimmed_ascii(s.drop_last());
    }
}

/// A message in lower case speaks of a missing or refused audio key.
pub open spec fn mentions_audio_key(message: Seq<char>) -> bool {
    ||| contains_text(message, "audio key"@)
    ||| contains_text(message, "audiokeyerror"@)
    ||| contains_text(message, "decryption key"@)
    ||| contains_text(message, "unable to load key"@)
    ||| contains_text(message, "unable to load decryption key"@)
}

/// Whether a message in lower case speaks of a missing or refused audio key.
pub fn has_audio_key_phrase(message: &str) -> (r: bool)
    ensures
        r == mentions_audio_key(message@),
{
    contains(message, "audio key") || contains(message, "audiokeyerror") || contains(
        message,
        "decryption key",
    ) || contains(message, "unable to load key") || contains(
        message,
        "unable to load decryption key",
    )
}

/// Whether a log line reports a missing or refused audio key, in letters of any case.
pub fn is_audio_key_error(event: &LogEvent) -> (r: bool)
    ensures
        r == mentions_audio_key(lowercase(event@.message)),
        event.message.is_ascii() ==> r == mentions_audio_key(lower_ascii(event@.message)),
{
    let message = to_lowercase(event.message.as_str());
    has_audio_key_phrase(message.as_str())
}

/// A message in lower case speaks of audio that cannot be decoded.
pub open spec fn mentions_decoder(message: Seq<char>) -> bool {
    ||| contains_text(message, "decoder error"@)
    ||| contains_text(message, "symphonia decoder error"@)
    ||| contains_text(message, "unable to read audio file"@)
    ||| contains_text(message, "end of stream"@)
}

/// Whether a message in lower case speaks of audio that cannot be decoded.
pub fn has_decoder_phrase(message: &str) -> (r: bool)
    ensures
        r == mentions_decoder(message@),
{
    contains(message, "decoder error") || contains(message, "symphonia decoder error") || contains(
        message,
        "unable to read audio file",
    ) || contains(message, "end of stream")
}

/// Whether a log line reports audio that cannot be decoded, in letters of any case.
pub fn is_decoder_error(event: &LogEvent) -> (r: bool)
    ensures
        r == mentions_decoder(lowercase(event@.message)),
        event.message.is_ascii() ==> r == mentions_decoder(lower_ascii(event@.message)),
{
    let message = to_lowercase(event.message.as_str());
    has_decoder_phrase(message.as_str())
}

/// The text inside an optional string slice.
pub open spec fn str_view(text: Option<&str>) -> Option<Seq<char>> {
    match text {
        Some(t) => Some(t@),
        None => None,
    }
}

fn own(text: Option<&str>) -> (r: Option<String>)
    ensures
        opt_view(r) == str_view(text),
{
    match text {
        Some(t) => Some(t.to_owned()),
        None => None,
    }
}

/// The payload for the log callback; none where nobody listens.
pub fn emit_log_ctx(
    listening: bool,
    level: &str,
    message: &str,
    scope: Option<&str>,
    device_id: Option<&str>,
    session_id: Option<&str>,
) -> (event: Option<LogEvent>)
    ensures
        event is Some <==> listening,
        event is Some ==> event->0@ == (LogEventView {
            level: level@,
            message: message@,
            scope: str_view(scope),
            device_id: str_view(device_id),
            session_id: str_view(session_id),
        }),
{
    if listening {
        Some(
            LogEvent {
                level: level.to_owned(),
                message: message.to_owned(),
                scope: own(scope),
                device_id: own(device_id),
                session_id: own(session_id),
            },
        )
    } else {
        None
    }
}

/// The log lines that a message gives: one, or none where nobody listens.
pub open spec fn log_line(
    listening: bool,
    level: Seq<char>,
    message: Seq<char>,
    scope: Seq<char>,
    ctx: EventContextView,
) -> Seq<LogEventView> {
    if listening {
        seq![
            LogEventView {
                level,
                message,
                scope: Some(scope),
                device_id: ctx.device_id,
                session_id: ctx.session_id,
            },
        ]
    } else {
        Seq::empty()
    }
}

fn as_str_opt(text: &Option<String>) -> (r: Option<&str>)
    ensures
        str_view(r) == opt_view(*text),
{
    match text {
        Some(t) => Some(t.as_str()),
        None => None,
    }
}

/// Adds a log line about the stream or host that `ctx` describes.
pub(crate) fn push_log(
    logs: &mut Vec<LogEvent>,
    listening: bool,
    level: &str,
    message: &str,
    scope: &str,
    ctx: &EventContext,
)
    ensures
        log_views(final(logs)@) == log_views(old(logs)@) + log_line(
            listening,
            level@,
            message@,
            scope@,
            ctx@,
        ),
{
    let event = emit_log_ctx(
        listening,
        level,
        message,
        Some(scope),
        as_str_opt(&ctx.device_id),
        as_str_opt(&ctx.session_id),
    );
    if let Some(line) = event {
        logs.push(line);
    }
    assert(log_views(logs@) =~= log_views(old(logs)@) + log_line(
        listening,
        level@,
        message@,
        scope@,
        ctx@,
    ));
}

/// The names of levels: these and no others are known.
pub proof fn law_filter_names(name: Seq<char>)
    ensures
        filter_named("off"@) == Some(LevelFilter::Off),
        filter_named("error"@) == Some(LevelFilter::Error),
        filter_named("warn"@) == Some(LevelFilter::Warn),
        filter_named("warning"@) == Some(LevelFilter::Warn),
        filter_named("info"@) == Some(LevelFilter::Info),
        filter_named("debug"@) == Some(LevelFilter::Debug),
        filter_named("trace"@) == Some(LevelFilter::Trace),
        filter_named(name) is Some ==> name == "off"@ || name == "error"@ || name == "warn"@ || name
            == "warning"@ || name == "info"@ || name == "debug"@ || name == "trace"@,
{
    reveal_strlit("off");
    reveal_strlit("error");
    reveal_strlit("warn");
    reveal_strlit("warning");
    reveal_strlit("info");
    reveal_strlit("debug");
    reveal_strlit("trace");
    assert("off"@.len() == 3 && "warn"@.len() == 4 && "info"@.len() == 4);
    assert("error"@.len() == 5 && "debug"@.len() == 5 && "trace"@.len() == 5);
    assert("warning"@.len() == 7);
    assert("warn"@[0] != "info"@[0]);
    assert("error"@[0] != "debug"@[0]);
    assert("error"@[0] != "trace"@[0]);
    assert("debug"@[0] != "trace"@[0]);
}

/// The levels are logged under their own names, and no two under the same.
pub proof fn law_level_names(level: Level)
    ensures
        level is Error ==> level_name_of(level) == "error"@,
        level is Warn ==> level_name_of(level) == "warn"@,
        level is Info ==> level_name_of(level) == "info"@,
        level is Debug ==> level_name_of(level) == "debug"@,
        level is Trace ==> level_name_of(level) == "trace"@,
{
}

/// Lower case changes each character for itself.
pub proof fn law_lower_ascii(s: Seq<char>, i: int)
    ensures
        lower_ascii(s).len() == s.len(),
        0 <= i < s.len() && 'A' <= s[i] <= 'Z' ==> lower_ascii(s)[i] as int == s[i] as int + 32,
        0 <= i < s.len() && !('A' <= s[i] <= 'Z') ==> lower_ascii(s)[i] == s[i],
{
}

/// Where one of these phrases stands in a message, whatever is round it, the message speaks of an
/// audio key.
pub proof fn law_audio_key_phrases(before: Seq<char>, after: Seq<char>)
    ensures
        mentions_audio_key(before + "audio key"@ + after),
        mentions_audio_key(before + "audiokeyerror"@ + after),
        mentions_audio_key(before + "decryption key"@ + after),
        mentions_audio_key(before + "unable to load key"@ + after),
        mentions_audio_key(before + "unable to load decryption key"@ + after),
{
    law_contains_parts(before, "audio key"@, after);
    law_contains_parts(before, "audiokeyerror"@, after);
    law_contains_parts(before, "decryption key"@, after);
    law_contains_parts(before, "unable to load key"@, after);
    law_contains_parts(before, "unable to load decryption key"@, after);
}

/// Where one of these phrases stands in a message, whatever is round it, the message speaks of audio
/// that cannot be decoded.
pub proof fn law_decoder_phrases(before: Seq<char>, after: Seq<char>)
    ensures
        mentions_decoder(before + "decoder error"@ + after),
        mentions_decoder(before + "symphonia decoder error"@ + after),
        mentions_decoder(before + "unable to read audio file"@ + after),
        mentions_decoder(before + "end of stream"@ + after),
{
    law_contains_parts(before, "decoder error"@, after);
    law_contains_parts(before, "symphonia decoder error"@, after);
    law_contains_parts(before, "unable to read audio file"@, after);
    law_contains_parts(before, "end of stream"@, after);
}

/// A message in which none of the phrases stands speaks of no trouble.
pub proof fn law_other_messages(message: Seq<char>)
    ensures
        mentions_audio_key(message) ==> contains_text(message, "audio key"@) || contains_text(
            message,
            "audiokeyerror"@,
        ) || contains_text(message, "decryption key"@) || contains_text(
            message,
            "unable to load key"@,
        ),
        mentions_decoder(message) ==> contains_text(message, "decoder error"@) || contains_text(
            message,
            "unable to read audio file"@,
        ) || contains_text(message, "end of stream"@),
{
    if contains_text(message, "unable to load decryption key"@) {
        let (a, b) = law_contained_part(message, "unable to load decryption key"@);
        reveal_strlit("unable to load decryption key");
        reveal_strlit("decryption key");
        let head = "unable to load decryption key"@.take(15);
        assert("unable to load decryption key"@ =~= head + "decryption key"@);
        assert(message =~= (a + head) + "decryption key"@ + b);
        law_contains_parts(a + head, "decryption key"@, b);
    }
    if contains_text(message, "symphonia decoder error"@) {
        let (a, b) = law_contained_part(message, "symphonia decoder error"@);
        reveal_strlit("symphonia decoder error");
        reveal_strlit("decoder error");
        let head = "symphonia decoder error"@.take(10);
        assert("symphonia decoder error"@ =~= head + "decoder error"@);
        assert(message =~= (a + head) + "decoder error"@ + b);
        law_contains_parts(a + head, "decoder error"@, b);
    }
}

/// What a setup and a choice of level do to the logger.
pub proof fn law_logger_steps(state: LoggerState, filter: LevelFilter)
    ensures
        set_up(state).installed,
        state.installed ==> set_up(state).max_level == state.max_level,
        !state.installed ==> set_up(state).max_level == LevelFilter::Debug,
        levelled(state, Some(filter)).installed,
        levelled(state, Some(filter)).max_level == filter,
        levelled(state, None) == set_up(state),
        !fresh_logger().installed,
        fresh_logger().max_level == LevelFilter::Off,
{
}

} // verus!
