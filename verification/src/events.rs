//! The payloads handed to callbacks: playback events and log lines, and the object properties
//! that each of them turns into.

use vstd::prelude::*;

use crate::text::{clone_opt, opt_view};

verus! {

/// Event payload emitted while a track is streamed or a connect host plays.
#[derive(Debug)]
pub struct ConnectEvent {
    pub event_type: String,
    pub device_id: Option<String>,
    pub session_id: Option<String>,
    pub track_id: Option<String>,
    pub uri: Option<String>,
    pub title: Option<String>,
    pub artist: Option<String>,
    pub album: Option<String>,
    pub duration_ms: Option<u32>,
    pub position_ms: Option<u32>,
    pub volume: Option<u16>,
    pub error_code: Option<String>,
    pub error_message: Option<String>,
    pub metric_name: Option<String>,
    pub metric_value_ms: Option<u32>,
    pub metric_message: Option<String>,
}

/// A [`ConnectEvent`] with its texts as character sequences.
#[verifier::ext_equal]
pub struct ConnectEventView {
    pub event_type: Seq<char>,
    pub device_id: Option<Seq<char>>,
    pub session_id: Option<Seq<char>>,
    pub track_id: Option<Seq<char>>,
    pub uri: Option<Seq<char>>,
    pub title: Option<Seq<char>>,
    pub artist: Option<Seq<char>>,
    pub album: Option<Seq<char>>,
    pub duration_ms: Option<u32>,
    pub position_ms: Option<u32>,
    pub volume: Option<u16>,
    pub error_code: Option<Seq<char>>,
    pub error_message: Option<Seq<char>>,
    pub metric_name: Option<Seq<char>>,
    pub metric_value_ms: Option<u32>,
    pub metric_message: Option<Seq<char>>,
}

impl View for ConnectEvent {
    type V = ConnectEventView;

    open spec fn view(&self) -> ConnectEventView {
        ConnectEventView {
            event_type: self.event_type@,
            device_id: opt_view(self.device_id),
            session_id: opt_view(self.session_id),
            track_id: opt_view(self.track_id),
            uri: opt_view(self.uri),
            title: opt_view(self.title),
            artist: opt_view(self.artist),
            album: opt_view(self.album),
            duration_ms: self.duration_ms,
            position_ms: self.position_ms,
            volume: self.volume,
            error_code: opt_view(self.error_code),
            error_message: opt_view(self.error_message),
            metric_name: opt_view(self.metric_name),
            metric_value_ms: self.metric_value_ms,
            metric_message: opt_view(self.metric_message),
        }
    }
}

/// The payloads in a list of events.
pub open spec fn event_views(events: Seq<ConnectEvent>) -> Seq<ConnectEventView> {
    events.map_values(|e: ConnectEvent| e@)
}

/// What an event says about where it comes from.
#[derive(Debug)]
pub struct EventContext {
    pub device_id: Option<String>,
    pub session_id: Option<String>,
    pub track_id: Option<String>,
    pub uri: Option<String>,
}

/// An [`EventContext`] with its texts as character sequences.
#[verifier::ext_equal]
pub struct EventContextView {
    pub device_id: Option<Seq<char>>,
    pub session_id: Option<Seq<char>>,
    pub track_id: Option<Seq<char>>,
    pub uri: Option<Seq<char>>,
}

impl View for EventContext {
    type V = EventContextView;

    open spec fn view(&self) -> EventContextView {
        EventContextView {
            device_id: opt_view(self.device_id),
            session_id: opt_view(self.session_id),
            track_id: opt_view(self.track_id),
            uri: opt_view(self.uri),
        }
    }
}

/// The event of the given type that says only where it comes from.
pub open spec fn plain_event(event_type: Seq<char>, ctx: EventContextView) -> ConnectEventView {
    ConnectEventView {
        event_type,
        device_id: ctx.device_id,
        session_id: ctx.session_id,
        track_id: ctx.track_id,
        uri: ctx.uri,
        title: None,
        artist: None,
        album: None,
        duration_ms: None,
        position_ms: None,
        volume: None,
        error_code: None,
        error_message: None,
        metric_name: None,
        metric_value_ms: None,
        metric_message: None,
    }
}

/// The event of type `error` with the given code and message.
pub open spec fn error_event(
    ctx: EventContextView,
    code: Seq<char>,
    message: Seq<char>,
) -> ConnectEventView {
    ConnectEventView {
        error_code: Some(code),
        error_message: Some(message),
        ..plain_event("error"@, ctx)
    }
}

/// The event of type `metric` with the given name, value and message.
pub open spec fn metric_event(
    ctx: EventContextView,
    name: Seq<char>,
    value_ms: Option<u32>,
    message: Option<Seq<char>>,
) -> ConnectEventView {
    ConnectEventView {
        metric_name: Some(name),
        metric_value_ms: value_ms,
        metric_message: message,
        ..plain_event("metric"@, ctx)
    }
}

impl ConnectEvent {
    /// The event of the given type that says only where it comes from.
    pub fn plain(event_type: &str, ctx: &EventContext) -> (e: ConnectEvent)
        ensures
            e@ == plain_event(event_type@, ctx@),
    {
        ConnectEvent {
            event_type: event_type.to_owned(),
            device_id: clone_opt(&ctx.device_id),
            session_id: clone_opt(&ctx.session_id),
            track_id: clone_opt(&ctx.track_id),
            uri: clone_opt(&ctx.uri),
            title: None,
            artist: None,
            album: None,
            duration_ms: None,
            position_ms: None,
            volume: None,
            error_code: None,
            error_message: None,
            metric_name: None,
            metric_value_ms: None,
            metric_message: None,
        }
    }

    /// The event of type `error` with the given code and message.
    pub fn error(ctx: &EventContext, code: &str, message: &str) -> (e: ConnectEvent)
        ensures
            e@ == error_event(ctx@, code@, message@),
    {
        ConnectEvent {
            error_code: Some(code.to_owned()),
            error_message: Some(message.to_owned()),
            ..ConnectEvent::plain("error", ctx)
        }
    }

    /// The event of type `metric` with the given name, value and message.
    pub fn metric(
        ctx: &EventContext,
        name: &str,
        value_ms: Option<u32>,
        message: Option<String>,
    ) -> (e: ConnectEvent)
        ensures
            e@ == metric_event(ctx@, name@, value_ms, opt_view(message)),
    {
        ConnectEvent {
            metric_name: Some(name.to_owned()),
            metric_value_ms: value_ms,
            metric_message: message,
            ..ConnectEvent::plain("metric", ctx)
        }
    }
}

/// Log payload handed to log callbacks.
#[derive(Debug)]
pub struct LogEvent {
    pub level: String,
    pub message: String,
    pub scope: Option<String>,
    pub device_id: Option<String>,
    pub session_id: Option<String>,
}

/// A [`LogEvent`] with its texts as character sequences.
#[verifier::ext_equal]
pub struct LogEventView {
    pub level: Seq<char>,
    pub message: Seq<char>,
    pub scope: Option<Seq<char>>,
    pub device_id: Option<Seq<char>>,
    pub session_id: Option<Seq<char>>,
}

impl View for LogEvent {
    type V = LogEventView;

    open spec fn view(&self) -> LogEventView {
        LogEventView {
            level: self.level@,
            message: self.message@,
            scope: opt_view(self.scope),
            device_id: opt_view(self.device_id),
            session_id: opt_view(self.session_id),
        }
    }
}

/// The payloads in a list of log lines.
pub open spec fn log_views(logs: Seq<LogEvent>) -> Seq<LogEventView> {
    logs.map_values(|l: LogEvent| l@)
}

impl Clone for LogEvent {
    fn clone(&self) -> (copy: LogEvent)
        ensures
            copy@ == self@,
    {
        LogEvent {
            level: self.level.clone(),
            message: self.message.clone(),
            scope: clone_opt(&self.scope),
            device_id: clone_opt(&self.device_id),
            session_id: clone_opt(&self.session_id),
        }
    }
}

/// The value of an object property.
#[derive(Debug)]
pub enum PropertyValue {
    Text(String),
    Number(u32),
}

/// A [`PropertyValue`] with its text as a character sequence.
pub enum PropertyValueView {
    Text(Seq<char>),
    Number(u32),
}

impl View for PropertyValue {
    type V = PropertyValueView;

    open spec fn view(&self) -> PropertyValueView {
        match *self {
            PropertyValue::Text(text) => PropertyValueView::Text(text@),
            PropertyValue::Number(n) => PropertyValueView::Number(n),
        }
    }
}

/// A named property of the object that a callback receives.
#[derive(Debug)]
pub struct Property {
    pub name: &'static str,
    pub value: PropertyValue,
}

/// A [`Property`] with its texts as character sequences.
pub struct PropertyView {
    pub name: Seq<char>,
    pub value: PropertyValueView,
}

impl View for Property {
    type V = PropertyView;

    open spec fn view(&self) -> PropertyView {
        PropertyView { name: self.name@, value: self.value@ }
    }
}

/// The properties in a list.
pub open spec fn property_views(properties: Seq<Property>) -> Seq<PropertyView> {
    properties.map_values(|p: Property| p@)
}

/// The property that an optional text gives: none where the text is absent.
pub open spec fn text_property(name: Seq<char>, text: Option<Seq<char>>) -> Seq<PropertyView> {
    match text {
        Some(t) => seq![PropertyView { name, value: PropertyValueView::Text(t) }],
        None => Seq::empty(),
    }
}

/// The property that an optional number gives: none where the number is absent.
pub open spec fn number_property(name: Seq<char>, number: Option<u32>) -> Seq<PropertyView> {
    match number {
        Some(n) => seq![PropertyView { name, value: PropertyValueView::Number(n) }],
        None => Seq::empty(),
    }
}

/// A volume as a property holds it.
pub open spec fn volume_number(volume: Option<u16>) -> Option<u32> {
    match volume {
        Some(v) => Some(v as u32),
        None => None,
    }
}

/// The properties of the object that carries `event`. Title, artist and album are among them only
/// where `with_titles` holds.
pub open spec fn event_properties_of(event: ConnectEventView, with_titles: bool) -> Seq<
    PropertyView,
> {
    text_property("type"@, Some(event.event_type))
        + text_property("deviceId"@, event.device_id)
        + text_property("sessionId"@, event.session_id)
        + text_property("trackId"@, event.track_id)
        + text_property("uri"@, event.uri)
        + text_property("title"@, if with_titles { event.title } else { None })
        + text_property("artist"@, if with_titles { event.artist } else { None })
        + text_property("album"@, if with_titles { event.album } else { None })
        + number_property("positionMs"@, event.position_ms)
        + number_property("durationMs"@, event.duration_ms)
        + number_property("volume"@, volume_number(event.volume))
        + text_property("errorCode"@, event.error_code)
        + text_property("errorMessage"@, event.error_message)
        + text_property("metricName"@, event.metric_name)
        + number_property("metricValueMs"@, event.metric_value_ms)
        + text_property("metricMessage"@, event.metric_message)
}

/// The properties of the object that carries the log line `log`.
pub open spec fn log_properties_of(log: LogEventView) -> Seq<PropertyView> {
    text_property("level"@, Some(log.level))
        + text_property("message"@, Some(log.message))
        + text_property("scope"@, log.scope)
        + text_property("deviceId"@, log.device_id)
        + text_property("sessionId"@, log.session_id)
}

fn push_text(properties: &mut Vec<Property>, name: &'static str, text: &Option<String>)
    ensures
        property_views(final(properties)@) == property_views(old(properties)@) + text_property(
            name@,
            opt_view(*text),
        ),
{
    if let Some(t) = text {
        properties.push(Property { name, value: PropertyValue::Text(t.clone()) });
    }
    assert(property_views(properties@) =~= property_views(old(properties)@) + text_property(
        name@,
        opt_view(*text),
    ));
}

fn push_number(properties: &mut Vec<Property>, name: &'static str, number: Option<u32>)
    ensures
        property_views(final(properties)@) == property_views(old(properties)@) + number_property(
            name@,
            number,
        ),
{
    if let Some(n) = number {
        properties.push(Property { name, value: PropertyValue::Number(n) });
    }
    assert(property_views(properties@) =~= property_views(old(properties)@) + number_property(
        name@,
        number,
    ));
}

/// The properties of the object that carries `event`, in the order in which they are set.
pub fn event_properties(event: &ConnectEvent, with_titles: bool) -> (properties: Vec<Property>)
    ensures
        property_views(properties@) == event_properties_of(event@, with_titles),
{
    let mut properties: Vec<Property> = Vec::new();
    properties.push(
        Property { name: "type", value: PropertyValue::Text(event.event_type.clone()) },
    );
    assert(property_views(properties@) =~= text_property("type"@, Some(event@.event_type)));
    push_text(&mut properties, "deviceId", &event.device_id);
    push_text(&mut properties, "sessionId", &event.session_id);
    push_text(&mut properties, "trackId", &event.track_id);
    push_text(&mut properties, "uri", &event.uri);
    let ghost untitled = property_views(properties@);
    if with_titles {
        push_text(&mut properties, "title", &event.title);
        push_text(&mut properties, "artist", &event.artist);
        push_text(&mut properties, "album", &event.album);
    }
    assert(property_views(properties@) =~= untitled + text_property(
        "title"@,
        if with_titles { event@.title } else { None },
    ) + text_property("artist"@, if with_titles { event@.artist } else { None }) + text_property(
        "album"@,
        if with_titles { event@.album } else { None },
    ));
    push_number(&mut properties, "positionMs", event.position_ms);
    push_number(&mut properties, "durationMs", event.duration_ms);
    let volume: Option<u32> = match event.volume {
        Some(v) => Some(v as u32),
        None => None,
    };
    push_number(&mut properties, "volume", volume);
    push_text(&mut properties, "errorCode", &event.error_code);
    push_text(&mut properties, "errorMessage", &event.error_message);
    push_text(&mut properties, "metricName", &event.metric_name);
    push_number(&mut properties, "metricValueMs", event.metric_value_ms);
    push_text(&mut properties, "metricMessage", &event.metric_message);
    properties
}

/// The properties of the object that carries the log line `log`, in the order in which they are
/// set.
pub fn log_properties(log: &LogEvent) -> (properties: Vec<Property>)
    ensures
        property_views(properties@) == log_properties_of(log@),
{
    let mut properties: Vec<Property> = Vec::new();
    properties.push(Property { name: "level", value: PropertyValue::Text(log.level.clone()) });
    properties.push(Property { name: "message", value: PropertyValue::Text(log.message.clone()) });
    assert(property_views(properties@) =~= text_property("level"@, Some(log@.level))
        + text_property("message"@, Some(log@.message)));
    push_text(&mut properties, "scope", &log.scope);
    push_text(&mut properties, "deviceId", &log.device_id);
    push_text(&mut properties, "sessionId", &log.session_id);
    properties
}

/// The value of the first property called `name`.
pub open spec fn lookup(properties: Seq<PropertyView>, name: Seq<char>) -> Option<
    PropertyValueView,
>
    decreases properties.len(),
{
    if properties.len() == 0 {
        None
    } else if properties.first().name == name {
        Some(properties.first().value)
    } else {
        lookup(properties.drop_first(), name)
    }
}

/// No two properties in the list have the same name.
pub open spec fn distinct_names(properties: Seq<PropertyView>) -> bool {
    forall|i: int, j: int|
        0 <= i < j < properties.len() ==> properties[i].name != properties[j].name
}

/// Appending a property under a new name keeps the names apart and adds exactly that name.
proof fn lemma_append_property(
    properties: Seq<PropertyView>,
    names: Set<Seq<char>>,
    name: Seq<char>,
    segment: Seq<PropertyView>,
)
    requires
        distinct_names(properties),
        forall|i: int| 0 <= i < properties.len() ==> names.contains(#[trigger] properties[i].name),
        !names.contains(name),
        segment.len() <= 1,
        segment.len() == 1 ==> segment[0].name == name,
    ensures
        distinct_names(properties + segment),
        forall|i: int|
            0 <= i < (properties + segment).len() ==> names.insert(name).contains(
                #[trigger] (properties + segment)[i].name,
            ),
        forall|n: Seq<char>|
            n != name ==> #[trigger] lookup(properties + segment, n) == lookup(properties, n),
        lookup(properties + segment, name) == (if segment.len() == 1 {
            Some(segment[0].value)
        } else {
            None
        }),
{
    assert forall|i: int, j: int|
        0 <= i < j < (properties + segment).len() implies (properties + segment)[i].name != (
    properties + segment)[j].name by {
        assert(names.contains(properties[i].name));
        if j < properties.len() {
            assert(names.contains(properties[j].name));
        }
    }
    assert forall|i: int| 0 <= i < (properties + segment).len() implies names.insert(
        name,
    ).contains(#[trigger] (properties + segment)[i].name) by {
        if i < properties.len() {
            assert(names.contains(properties[i].name));
        }
    }
    assert forall|n: Seq<char>| true implies #[trigger] lookup(properties + segment, n) == (
    match lookup(properties, n) {
        Some(v) => Some(v),
        None => lookup(segment, n),
    }) by {
        lemma_lookup_append(properties, segment, n);
    }
    lemma_lookup_append(properties, segment, name);
    lemma_lookup_absent(properties, name);
    reveal_with_fuel(lookup, 2);
}

proof fn lemma_lookup_append(a: Seq<PropertyView>, b: Seq<PropertyView>, name: Seq<char>)
    ensures
        lookup(a + b, name) == (match lookup(a, name) {
            Some(v) => Some(v),
            None => lookup(b, name),
        }),
    decreases a.len(),
{
    if a.len() == 0 {
        assert(a + b =~= b);
    } else {
        assert((a + b).drop_first() =~= a.drop_first() + b);
        lemma_lookup_append(a.drop_first(), b, name);
    }
}

proof fn lemma_lookup_absent(properties: Seq<PropertyView>, name: Seq<char>)
    requires
        forall|i: int| 0 <= i < properties.len() ==> #[trigger] properties[i].name != name,
    ensures
        lookup(properties, name) is None,
    decreases properties.len(),
{
    if properties.len() > 0 {
        assert(properties[0].name != name);
        assert forall|i: int| 0 <= i < properties.drop_first().len() implies #[trigger]
        properties.drop_first()[i].name != name by {
            assert(properties.drop_first()[i] == properties[i + 1]);
        }
        lemma_lookup_absent(properties.drop_first(), name);
    }
}

/// The value that a property holds for an optional text.
pub open spec fn text_value(text: Option<Seq<char>>) -> Option<PropertyValueView> {
    match text {
        Some(t) => Some(PropertyValueView::Text(t)),
        None => None,
    }
}

/// The value that a property holds for an optional number.
pub open spec fn number_value(number: Option<u32>) -> Option<PropertyValueView> {
    match number {
        Some(n) => Some(PropertyValueView::Number(n)),
        None => None,
    }
}

/// No property of an event object is set twice, and each field of the event is found under its
/// own name exactly when the event has it; titles are left out unless they are asked for.
pub proof fn law_event_properties(event: ConnectEventView, with_titles: bool)
    ensures
        distinct_names(event_properties_of(event, with_titles)),
        lookup(event_properties_of(event, with_titles), "type"@) == text_value(
            Some(event.event_type),
        ),
        lookup(event_properties_of(event, with_titles), "deviceId"@) == text_value(event.device_id),
        lookup(event_properties_of(event, with_titles), "sessionId"@) == text_value(
            event.session_id,
        ),
        lookup(event_properties_of(event, with_titles), "trackId"@) == text_value(event.track_id),
        lookup(event_properties_of(event, with_titles), "uri"@) == text_value(event.uri),
        lookup(event_properties_of(event, with_titles), "title"@) == (if with_titles {
            text_value(event.title)
        } else {
            None
        }),
        lookup(event_properties_of(event, with_titles), "artist"@) == (if with_titles {
            text_value(event.artist)
        } else {
            None
        }),
        lookup(event_properties_of(event, with_titles), "album"@) == (if with_titles {
            text_value(event.album)
        } else {
            None
        }),
        lookup(event_properties_of(event, with_titles), "positionMs"@) == number_value(
            event.position_ms,
        ),
        lookup(event_properties_of(event, with_titles), "durationMs"@) == number_value(
            event.duration_ms,
        ),
        lookup(event_properties_of(event, with_titles), "volume"@) == number_value(
            volume_number(event.volume),
        ),
        lookup(event_properties_of(event, with_titles), "errorCode"@) == text_value(
            event.error_code,
        ),
        lookup(event_properties_of(event, with_titles), "errorMessage"@) == text_value(
            event.error_message,
        ),
        lookup(event_properties_of(event, with_titles), "metricName"@) == text_value(
            event.metric_name,
        ),
        lookup(event_properties_of(event, with_titles), "metricValueMs"@) == number_value(
            event.metric_value_ms,
        ),
        lookup(event_properties_of(event, with_titles), "metricMessage"@) == text_value(
            event.metric_message,
        ),
{
    lemma_event_names();
    let n0: Set<Seq<char>> = Set::empty();
    let p0: Seq<PropertyView> = Seq::empty();
    let s1 = text_property("type"@, Some(event.event_type));
    lemma_append_property(p0, n0, "type"@, s1);
    let n1 = n0.insert("type"@);
    let p1 = p0 + s1;
    let s2 = text_property("deviceId"@, event.device_id);
    lemma_append_property(p1, n1, "deviceId"@, s2);
    let n2 = n1.insert("deviceId"@);
    let p2 = p1 + s2;
    let s3 = text_property("sessionId"@, event.session_id);
    lemma_append_property(p2, n2, "sessionId"@, s3);
    let n3 = n2.insert("sessionId"@);
    let p3 = p2 + s3;
    let s4 = text_property("trackId"@, event.track_id);
    lemma_append_property(p3, n3, "trackId"@, s4);
    let n4 = n3.insert("trackId"@);
    let p4 = p3 + s4;
    let s5 = text_property("uri"@, event.uri);
    lemma_append_property(p4, n4, "uri"@, s5);
    let n5 = n4.insert("uri"@);
    let p5 = p4 + s5;
    let s6 = text_property("title"@, if with_titles { event.title } else { None });
    lemma_append_property(p5, n5, "title"@, s6);
    let n6 = n5.insert("title"@);
    let p6 = p5 + s6;
    let s7 = text_property("artist"@, if with_titles { event.artist } else { None });
    lemma_append_property(p6, n6, "artist"@, s7);
    let n7 = n6.insert("artist"@);
    let p7 = p6 + s7;
    let s8 = text_property("album"@, if with_titles { event.album } else { None });
    lemma_append_property(p7, n7, "album"@, s8);
    let n8 = n7.insert("album"@);
    let p8 = p7 + s8;
    let s9 = number_property("positionMs"@, event.position_ms);
    lemma_append_property(p8, n8, "positionMs"@, s9);
    let n9 = n8.insert("positionMs"@);
    let p9 = p8 + s9;
    let s10 = number_property("durationMs"@, event.duration_ms);
    lemma_append_property(p9, n9, "durationMs"@, s10);
    let n10 = n9.insert("durationMs"@);
    let p10 = p9 + s10;
    let s11 = number_property("volume"@, volume_number(event.volume));
    lemma_append_property(p10, n10, "volume"@, s11);
    let n11 = n10.insert("volume"@);
    let p11 = p10 + s11;
    let s12 = text_property("errorCode"@, event.error_code);
    lemma_append_property(p11, n11, "errorCode"@, s12);
    let n12 = n11.insert("errorCode"@);
    let p12 = p11 + s12;
    let s13 = text_property("errorMessage"@, event.error_message);
    lemma_append_property(p12, n12, "errorMessage"@, s13);
    let n13 = n12.insert("errorMessage"@);
    let p13 = p12 + s13;
    let s14 = text_property("metricName"@, event.metric_name);
    lemma_append_property(p13, n13, "metricName"@, s14);
    let n14 = n13.insert("metricName"@);
    let p14 = p13 + s14;
    let s15 = number_property("metricValueMs"@, event.metric_value_ms);
    lemma_append_property(p14, n14, "metricValueMs"@, s15);
    let n15 = n14.insert("metricValueMs"@);
    let p15 = p14 + s15;
    let s16 = text_property("metricMessage"@, event.metric_message);
    lemma_append_property(p15, n15, "metricMessage"@, s16);
    let n16 = n15.insert("metricMessage"@);
    let p16 = p15 + s16;
    assert(p1 =~= s1);
    assert(p16 == event_properties_of(event, with_titles));
}

proof fn lemma_event_names()
    ensures
        "deviceId"@ != "type"@,
        "sessionId"@ != "type"@,
        "sessionId"@ != "deviceId"@,
        "trackId"@ != "type"@,
        "trackId"@ != "deviceId"@,
        "trackId"@ != "sessionId"@,
        "uri"@ != "type"@,
        "uri"@ != "deviceId"@,
        "uri"@ != "sessionId"@,
        "uri"@ != "trackId"@,
        "title"@ != "type"@,
        "title"@ != "deviceId"@,
        "title"@ != "sessionId"@,
        "title"@ != "trackId"@,
        "title"@ != "uri"@,
        "artist"@ != "type"@,
        "artist"@ != "deviceId"@,
        "artist"@ != "sessionId"@,
        "artist"@ != "trackId"@,
        "artist"@ != "uri"@,
        "artist"@ != "title"@,
        "album"@ != "type"@,
        "album"@ != "deviceId"@,
        "album"@ != "sessionId"@,
        "album"@ != "trackId"@,
        "album"@ != "uri"@,
        "album"@ != "title"@,
        "album"@ != "artist"@,
        "positionMs"@ != "type"@,
        "positionMs"@ != "deviceId"@,
        "positionMs"@ != "sessionId"@,
        "positionMs"@ != "trackId"@,
        "positionMs"@ != "uri"@,
        "positionMs"@ != "title"@,
        "positionMs"@ != "artist"@,
        "positionMs"@ != "album"@,
        "durationMs"@ != "type"@,
        "durationMs"@ != "deviceId"@,
        "durationMs"@ != "sessionId"@,
        "durationMs"@ != "trackId"@,
        "durationMs"@ != "uri"@,
        "durationMs"@ != "title"@,
        "durationMs"@ != "artist"@,
        "durationMs"@ != "album"@,
        "durationMs"@ != "positionMs"@,
        "volume"@ != "type"@,
        "volume"@ != "deviceId"@,
        "volume"@ != "sessionId"@,
        "volume"@ != "trackId"@,
        "volume"@ != "uri"@,
        "volume"@ != "title"@,
        "volume"@ != "artist"@,
        "volume"@ != "album"@,
        "volume"@ != "positionMs"@,
        "volume"@ != "durationMs"@,
        "errorCode"@ != "type"@,
        "errorCode"@ != "deviceId"@,
        "errorCode"@ != "sessionId"@,
        "errorCode"@ != "trackId"@,
        "errorCode"@ != "uri"@,
        "errorCode"@ != "title"@,
        "errorCode"@ != "artist"@,
        "errorCode"@ != "album"@,
        "errorCode"@ != "positionMs"@,
        "errorCode"@ != "durationMs"@,
        "errorCode"@ != "volume"@,
        "errorMessage"@ != "type"@,
        "errorMessage"@ != "deviceId"@,
        "errorMessage"@ != "sessionId"@,
        "errorMessage"@ != "trackId"@,
        "errorMessage"@ != "uri"@,
        "errorMessage"@ != "title"@,
        "errorMessage"@ != "artist"@,
        "errorMessage"@ != "album"@,
        "errorMessage"@ != "positionMs"@,
        "errorMessage"@ != "durationMs"@,
        "errorMessage"@ != "volume"@,
        "errorMessage"@ != "errorCode"@,
        "metricName"@ != "type"@,
        "metricName"@ != "deviceId"@,
        "metricName"@ != "sessionId"@,
        "metricName"@ != "trackId"@,
        "metricName"@ != "uri"@,
        "metricName"@ != "title"@,
        "metricName"@ != "artist"@,
        "metricName"@ != "album"@,
        "metricName"@ != "positionMs"@,
        "metricName"@ != "durationMs"@,
        "metricName"@ != "volume"@,
        "metricName"@ != "errorCode"@,
        "metricName"@ != "errorMessage"@,
        "metricValueMs"@ != "type"@,
        "metricValueMs"@ != "deviceId"@,
        "metricValueMs"@ != "sessionId"@,
        "metricValueMs"@ != "trackId"@,
        "metricValueMs"@ != "uri"@,
        "metricValueMs"@ != "title"@,
        "metricValueMs"@ != "artist"@,
        "metricValueMs"@ != "album"@,
        "metricValueMs"@ != "positionMs"@,
        "metricValueMs"@ != "durationMs"@,
        "metricValueMs"@ != "volume"@,
        "metricValueMs"@ != "errorCode"@,
        "metricValueMs"@ != "errorMessage"@,
        "metricValueMs"@ != "metricName"@,
        "metricMessage"@ != "type"@,
        "metricMessage"@ != "deviceId"@,
        "metricMessage"@ != "sessionId"@,
        "metricMessage"@ != "trackId"@,
        "metricMessage"@ != "uri"@,
        "metricMessage"@ != "title"@,
        "metricMessage"@ != "artist"@,
        "metricMessage"@ != "album"@,
        "metricMessage"@ != "positionMs"@,
        "metricMessage"@ != "durationMs"@,
        "metricMessage"@ != "volume"@,
        "metricMessage"@ != "errorCode"@,
        "metricMessage"@ != "errorMessage"@,
        "metricMessage"@ != "metricName"@,
        "metricMessage"@ != "metricValueMs"@,
{
    reveal_strlit("type");
    reveal_strlit("deviceId");
    reveal_strlit("sessionId");
    reveal_strlit("trackId");
    reveal_strlit("uri");
    reveal_strlit("title");
    reveal_strlit("artist");
    reveal_strlit("album");
    reveal_strlit("positionMs");
    reveal_strlit("durationMs");
    reveal_strlit("volume");
    reveal_strlit("errorCode");
    reveal_strlit("errorMessage");
    reveal_strlit("metricName");
    reveal_strlit("metricValueMs");
    reveal_strlit("metricMessage");
    assert("type"@.len() == 4 && "type"@[0] == 't');
    assert("deviceId"@.len() == 8 && "deviceId"@[0] == 'd');
    assert("sessionId"@.len() == 9 && "sessionId"@[0] == 's');
    assert("trackId"@.len() == 7 && "trackId"@[0] == 't');
    assert("uri"@.len() == 3 && "uri"@[0] == 'u');
    assert("title"@.len() == 5 && "title"@[0] == 't');
    assert("artist"@.len() == 6 && "artist"@[0] == 'a');
    assert("album"@.len() == 5 && "album"@[0] == 'a');
    assert("positionMs"@.len() == 10 && "positionMs"@[0] == 'p');
    assert("durationMs"@.len() == 10 && "durationMs"@[0] == 'd');
    assert("volume"@.len() == 6 && "volume"@[0] == 'v');
    assert("errorCode"@.len() == 9 && "errorCode"@[0] == 'e');
    assert("errorMessage"@.len() == 12 && "errorMessage"@[0] == 'e');
    assert("metricName"@.len() == 10 && "metricName"@[0] == 'm');
    assert("metricValueMs"@.len() == 13 && "metricValueMs"@[0] == 'm');
    assert("metricMessage"@.len() == 13 && "metricMessage"@[0] == 'm');
    assert("metricValueMs"@[6] == 'V' && "metricMessage"@[6] == 'M');
}

/// No property of a log object is set twice, and each field of the log line is found under its
/// own name exactly when the line has it.
pub proof fn law_log_properties(log: LogEventView)
    ensures
        distinct_names(log_properties_of(log)),
        lookup(log_properties_of(log), "level"@) == text_value(Some(log.level)),
        lookup(log_properties_of(log), "message"@) == text_value(Some(log.message)),
        lookup(log_properties_of(log), "scope"@) == text_value(log.scope),
        lookup(log_properties_of(log), "deviceId"@) == text_value(log.device_id),
        lookup(log_properties_of(log), "sessionId"@) == text_value(log.session_id),
{
    reveal_strlit("level");
    reveal_strlit("message");
    reveal_strlit("scope");
    reveal_strlit("deviceId");
    reveal_strlit("sessionId");
    assert("level"@.len() == 5 && "level"@[0] == 'l');
    assert("message"@.len() == 7);
    assert("scope"@.len() == 5 && "scope"@[0] == 's');
    assert("deviceId"@.len() == 8);
    assert("sessionId"@.len() == 9);
    let n0: Set<Seq<char>> = Set::empty();
    let p0: Seq<PropertyView> = Seq::empty();
    let s1 = text_property("level"@, Some(log.level));
    lemma_append_property(p0, n0, "level"@, s1);
    let n1 = n0.insert("level"@);
    let p1 = p0 + s1;
    assert(p1 =~= s1);
    let s2 = text_property("message"@, Some(log.message));
    lemma_append_property(p1, n1, "message"@, s2);
    let n2 = n1.insert("message"@);
    let p2 = p1 + s2;
    let s3 = text_property("scope"@, log.scope);
    lemma_append_property(p2, n2, "scope"@, s3);
    let n3 = n2.insert("scope"@);
    let p3 = p2 + s3;
    let s4 = text_property("deviceId"@, log.device_id);
    lemma_append_property(p3, n3, "deviceId"@, s4);
    let n4 = n3.insert("deviceId"@);
    let p4 = p3 + s4;
    let s5 = text_property("sessionId"@, log.session_id);
    lemma_append_property(p4, n4, "sessionId"@, s5);
}

} // verus!
