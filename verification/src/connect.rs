//! The decisions of a connect host: its settings, what its player's events turn into, and how they
//! are enriched with titles and names from the catalogue.

use vstd::prelude::*;

use crate::events::{
    log_views, plain_event, ConnectEvent, ConnectEventView, EventContext, EventContextView,
    LogEvent, LogEventView,
};
use crate::logging::{log_line, push_log};
use crate::playback::{
    about, event_name, event_name_of, payload_for, payload_view, player_payload, trace_lines,
    PlaybackMemory, PlayerEvent, PlayerEventView, PlayerTrace,
};
use crate::spotify::{read_uri, spotify_uri};
use crate::text::{concat, same_text};

verus! {

/// The scope under which a host logs.
pub open spec fn host_scope() -> Seq<char> {
    "connect_host"@
}

/// The kinds of devices as which a connect device can be shown.
#[derive(Clone, Copy, Debug, PartialEq, Eq, Structural)]
pub enum DeviceType {
    Unknown,
    Computer,
    Tablet,
    Smartphone,
    Speaker,
    Tv,
    Avr,
    Stb,
    AudioDongle,
    GameConsole,
    CastAudio,
    CastVideo,
    Automobile,
    Smartwatch,
    Chromebook,
    UnknownSpotify,
    CarThing,
    Observer,
}

/// How a connect host presents itself.
#[derive(Debug)]
pub struct ConnectSettings {
    pub name: String,
    pub device_type: DeviceType,
    pub is_group: bool,
    pub emit_set_queue_events: bool,
    pub initial_volume: u16,
    pub disable_volume: bool,
    pub volume_steps: u16,
}

/// [`ConnectSettings`] with the name as a character sequence.
#[verifier::ext_equal]
pub struct ConnectSettingsView {
    pub name: Seq<char>,
    pub device_type: DeviceType,
    pub is_group: bool,
    pub emit_set_queue_events: bool,
    pub initial_volume: u16,
    pub disable_volume: bool,
    pub volume_steps: u16,
}

impl View for ConnectSettings {
    type V = ConnectSettingsView;

    open spec fn view(&self) -> ConnectSettingsView {
        ConnectSettingsView {
            name: self.name@,
            device_type: self.device_type,
            is_group: self.is_group,
            emit_set_queue_events: self.emit_set_queue_events,
            initial_volume: self.initial_volume,
            disable_volume: self.disable_volume,
            volume_steps: self.volume_steps,
        }
    }
}

/// The settings of the host called `name`: a single speaker at full volume.
pub open spec fn settings_for(name: Seq<char>) -> ConnectSettingsView {
    ConnectSettingsView {
        name,
        device_type: DeviceType::Speaker,
        is_group: false,
        emit_set_queue_events: false,
        initial_volume: u16::MAX,
        disable_volume: false,
        volume_steps: 64,
    }
}

/// The settings of the host called `name`. It starts at full volume: the volume is controlled where
/// the audio is consumed.
pub fn connect_settings(name: String) -> (settings: ConnectSettings)
    ensures
        settings@ == settings_for(name@),
{
    ConnectSettings {
        name,
        device_type: DeviceType::Speaker,
        is_group: false,
        emit_set_queue_events: false,
        initial_volume: 0xffff,
        disable_volume: false,
        volume_steps: 64,
    }
}

/// What an event of the host's player led to.
#[derive(Debug)]
pub struct HostReport {
    pub logs: Vec<LogEvent>,
    /// The payload that is to be enriched and passed on.
    pub payload: Option<ConnectEvent>,
}

/// The lines that log a player event.
pub open spec fn host_lines(
    trace: PlayerTrace,
    ctx: EventContextView,
    logging: bool,
    event: PlayerEventView,
) -> Seq<LogEventView> {
    trace_lines(trace, logging, host_scope(), ctx, event_name_of(event)) + (if event is Unavailable {
        log_line(logging, "warn"@, "player reported track unavailable"@, host_scope(), ctx)
    } else {
        Seq::empty()
    })
}

/// Takes in an event of the host's player.
pub fn on_host_event(
    trace: &mut PlayerTrace,
    memory: &PlaybackMemory,
    ctx: &EventContext,
    logging: bool,
    event: &PlayerEvent,
) -> (report: HostReport)
    requires
        old(trace).event_count < u32::MAX,
    ensures
        log_views(report.logs@) == host_lines(*old(trace), ctx@, logging, event@),
        payload_view(report.payload) == player_payload(*memory, ctx@, event@),
        final(trace).first_event_logged,
        final(trace).event_count == old(trace).event_count + 1,
{
    let mut logs: Vec<LogEvent> = Vec::new();
    assert(log_views(logs@) =~= Seq::empty());
    let ghost trace0 = *trace;
    trace.record(&mut logs, logging, "connect_host", ctx, event_name(event));
    if let PlayerEvent::Unavailable { .. } = event {
        push_log(
            &mut logs,
            logging,
            "warn",
            "player reported track unavailable",
            "connect_host",
            ctx,
        );
    }
    assert(log_views(logs@) =~= host_lines(trace0, ctx@, logging, event@));
    HostReport { logs, payload: payload_for(memory, ctx, event) }
}

/// The payload says that the track plays, is paused, or is at a corrected position.
pub open spec fn tells_position(payload: ConnectEventView) -> bool {
    ||| payload.event_type == "playing"@
    ||| payload.event_type == "paused"@
    ||| payload.event_type == "position_correction"@
}

/// What is remembered of the playback once `payload` has been passed on: the position and the
/// duration that it told, if it told them.
pub open spec fn remembered(memory: PlaybackMemory, payload: ConnectEventView) -> PlaybackMemory {
    if tells_position(payload) {
        PlaybackMemory {
            saw_playing: true,
            last_position_ms: if payload.position_ms is Some {
                payload.position_ms
            } else {
                memory.last_position_ms
            },
            last_duration_ms: if payload.duration_ms is Some {
                payload.duration_ms
            } else {
                memory.last_duration_ms
            },
        }
    } else {
        memory
    }
}

/// Remembers what an enriched payload tells of the playback.
pub fn remember(memory: &mut PlaybackMemory, payload: &ConnectEvent)
    ensures
        *final(memory) == remembered(*old(memory), payload@),
{
    let kind = payload.event_type.as_str();
    if same_text(kind, "playing") || same_text(kind, "paused") || same_text(
        kind,
        "position_correction",
    ) {
        memory.saw_playing = true;
        if payload.position_ms.is_some() {
            memory.last_position_ms = payload.position_ms;
        }
        if payload.duration_ms.is_some() {
            memory.last_duration_ms = payload.duration_ms;
        }
    }
}

/// What the catalogue says of an item.
#[derive(Debug)]
pub struct ItemInfo {
    pub name: String,
    pub duration_ms: u32,
    pub uri: String,
}

/// [`ItemInfo`] with its texts as character sequences.
#[verifier::ext_equal]
pub struct ItemInfoView {
    pub name: Seq<char>,
    pub duration_ms: u32,
    pub uri: Seq<char>,
}

impl View for ItemInfo {
    type V = ItemInfoView;

    open spec fn view(&self) -> ItemInfoView {
        ItemInfoView { name: self.name@, duration_ms: self.duration_ms, uri: self.uri@ }
    }
}

/// What the catalogue says of an item, if it knows the item.
pub open spec fn info_view(info: Option<ItemInfo>) -> Option<ItemInfoView> {
    match info {
        Some(i) => Some(i@),
        None => None,
    }
}

/// What is to be looked up in the catalogue next.
#[derive(Debug)]
pub enum Lookup {
    /// The item with this URI.
    Item(String),
    /// The track with this URI.
    Track(String),
    /// The album of the track that was found.
    Album,
    /// The first artist of the track that was found.
    Artist,
    /// Nothing: the payload is complete.
    Nothing,
}

/// A [`Lookup`] with its texts as character sequences.
pub enum LookupView {
    Item(Seq<char>),
    Track(Seq<char>),
    Album,
    Artist,
    Nothing,
}

impl View for Lookup {
    type V = LookupView;

    open spec fn view(&self) -> LookupView {
        match *self {
            Lookup::Item(uri) => LookupView::Item(uri@),
            Lookup::Track(uri) => LookupView::Track(uri@),
            Lookup::Album => LookupView::Album,
            Lookup::Artist => LookupView::Artist,
            Lookup::Nothing => LookupView::Nothing,
        }
    }
}

/// The URI under which a payload's track is looked up: its own, or one made of its track
/// identifier.
pub open spec fn lookup_target(payload: ConnectEventView) -> Option<Seq<char>> {
    match payload.uri {
        Some(uri) => Some(uri),
        None => match payload.track_id {
            Some(id) => Some("spotify:track:"@ + id),
            None => None,
        },
    }
}

/// The URI under which a payload's track is looked up.
pub fn lookup_uri(payload: &ConnectEvent) -> (uri: Option<String>)
    ensures
        crate::text::opt_view(uri) == lookup_target(payload@),
{
    match &payload.uri {
        Some(uri) => Some(uri.clone()),
        None => match &payload.track_id {
            Some(id) => Some(concat("spotify:track:", id.as_str())),
            None => None,
        },
    }
}

/// The URI under which a payload's track is looked up can be read.
pub open spec fn target_readable(payload: ConnectEventView) -> bool {
    match lookup_target(payload) {
        Some(uri) => spotify_uri(uri) is Ok,
        None => false,
    }
}

fn can_read_target(payload: &ConnectEvent) -> (r: bool)
    ensures
        r == target_readable(payload@),
{
    match lookup_uri(payload) {
        Some(uri) => {
            let item = read_uri(uri.as_str());
            item.is_ok()
        },
        None => false,
    }
}

/// What is looked up for a payload first. `readable` says whether the URI to look it up under can
/// be read.
pub open spec fn first_lookup_of(payload: ConnectEventView, readable: bool) -> LookupView {
    if (payload.title is None || payload.duration_ms is None || payload.uri is None) && readable
        && lookup_target(payload) is Some {
        LookupView::Item(lookup_target(payload)->0)
    } else {
        names_lookup_of(payload, readable)
    }
}

/// What is looked up for a payload once its item is known or cannot be.
pub open spec fn names_lookup_of(payload: ConnectEventView, readable: bool) -> LookupView {
    if (payload.artist is None || payload.album is None) && readable && lookup_target(
        payload,
    ) is Some {
        LookupView::Track(lookup_target(payload)->0)
    } else {
        LookupView::Nothing
    }
}

/// What is looked up for a payload first, where `readable` says whether its URI can be read.
pub fn first_lookup_given(payload: &ConnectEvent, readable: bool) -> (lookup: Lookup)
    ensures
        lookup@ == first_lookup_of(payload@, readable),
{
    if payload.title.is_none() || payload.duration_ms.is_none() || payload.uri.is_none() {
        if readable {
            if let Some(uri) = lookup_uri(payload) {
                return Lookup::Item(uri);
            }
        }
    }
    names_lookup_given(payload, readable)
}

/// What is looked up for a payload once its item is known or cannot be, where `readable` says
/// whether its URI can be read.
pub fn names_lookup_given(payload: &ConnectEvent, readable: bool) -> (lookup: Lookup)
    ensures
        lookup@ == names_lookup_of(payload@, readable),
{
    if payload.artist.is_none() || payload.album.is_none() {
        if readable {
            if let Some(uri) = lookup_uri(payload) {
                return Lookup::Track(uri);
            }
        }
    }
    Lookup::Nothing
}

/// What is looked up for a payload first.
pub fn first_lookup(payload: &ConnectEvent) -> (lookup: Lookup)
    ensures
        lookup@ == first_lookup_of(payload@, target_readable(payload@)),
{
    let readable = can_read_target(payload);
    first_lookup_given(payload, readable)
}

/// A payload with what the catalogue says of its item.
pub open spec fn item_filled(payload: ConnectEventView, info: Option<ItemInfoView>) -> ConnectEventView {
    match info {
        Some(i) => ConnectEventView {
            title: Some(i.name),
            duration_ms: Some(i.duration_ms),
            uri: Some(i.uri),
            ..payload
        },
        None => payload,
    }
}

/// Takes in what the catalogue says of the item, and tells what is looked up next.
pub fn with_item(payload: ConnectEvent, info: Option<ItemInfo>) -> (r: (ConnectEvent, Lookup))
    ensures
        r.0@ == item_filled(payload@, info_view(info)),
        r.1@ == names_lookup_of(r.0@, target_readable(r.0@)),
{
    let filled = match info {
        Some(i) => ConnectEvent {
            title: Some(i.name),
            duration_ms: Some(i.duration_ms),
            uri: Some(i.uri),
            ..payload
        },
        None => payload,
    };
    let readable = can_read_target(&filled);
    let lookup = names_lookup_given(&filled, readable);
    (filled, lookup)
}

/// What is looked up once the track was found, with this many artists, or was not found.
pub open spec fn after_track(payload: ConnectEventView, artists: Option<nat>) -> LookupView {
    match artists {
        None => LookupView::Nothing,
        Some(n) => if payload.album is None {
            LookupView::Album
        } else {
            after_album(payload, n)
        },
    }
}

/// What is looked up once the album is known or cannot be.
pub open spec fn after_album(payload: ConnectEventView, artists: nat) -> LookupView {
    if payload.artist is None && artists > 0 {
        LookupView::Artist
    } else {
        LookupView::Nothing
    }
}

/// Takes in how many artists the track has, or that it was not found, and tells what is looked up
/// next.
pub fn with_track(payload: &ConnectEvent, artists: Option<usize>) -> (lookup: Lookup)
    ensures
        lookup@ == after_track(
            payload@,
            match artists {
                Some(n) => Some(n as nat),
                None => None,
            },
        ),
{
    match artists {
        None => Lookup::Nothing,
        Some(n) => if payload.album.is_none() {
            Lookup::Album
        } else if payload.artist.is_none() && n > 0 {
            Lookup::Artist
        } else {
            Lookup::Nothing
        },
    }
}

/// A payload with the name of its album, if that was found.
pub open spec fn album_filled(payload: ConnectEventView, album: Option<Seq<char>>) -> ConnectEventView {
    match album {
        Some(name) => ConnectEventView { album: Some(name), ..payload },
        None => payload,
    }
}

/// Takes in the name of the album of a track with this many artists, and tells what is looked up
/// next.
pub fn with_album(payload: ConnectEvent, album: Option<String>, artists: usize) -> (r: (
    ConnectEvent,
    Lookup,
))
    ensures
        r.0@ == album_filled(payload@, crate::text::opt_view(album)),
        r.1@ == after_album(r.0@, artists as nat),
{
    let filled = match album {
        Some(name) => ConnectEvent { album: Some(name), ..payload },
        None => payload,
    };
    let lookup = if filled.artist.is_none() && artists > 0 {
        Lookup::Artist
    } else {
        Lookup::Nothing
    };
    (filled, lookup)
}

/// A payload with the name of its first artist, if that was found.
pub open spec fn artist_filled(payload: ConnectEventView, artist: Option<Seq<char>>) -> ConnectEventView {
    match artist {
        Some(name) => ConnectEventView { artist: Some(name), ..payload },
        None => payload,
    }
}

/// Takes in the name of the first artist; the payload is then complete.
pub fn with_artist(payload: ConnectEvent, artist: Option<String>) -> (filled: ConnectEvent)
    ensures
        filled@ == artist_filled(payload@, crate::text::opt_view(artist)),
{
    match artist {
        Some(name) => ConnectEvent { artist: Some(name), ..payload },
        None => payload,
    }
}

/// The answers that a catalogue gives to the lookups for one payload.
#[derive(Debug)]
pub struct Answers {
    pub item: Option<ItemInfo>,
    /// How many artists the track has, if the track is found.
    pub artists: Option<usize>,
    pub album: Option<String>,
    pub artist: Option<String>,
}

impl View for Answers {
    type V = Catalogue;

    open spec fn view(&self) -> Catalogue {
        Catalogue {
            item: info_view(self.item),
            artists: match self.artists {
                Some(n) => Some(n as nat),
                None => None,
            },
            album: crate::text::opt_view(self.album),
            artist: crate::text::opt_view(self.artist),
        }
    }
}

/// [`Answers`] as mathematical values.
pub struct Catalogue {
    pub item: Option<ItemInfoView>,
    /// How many artists the track has, if the track is found.
    pub artists: Option<nat>,
    pub album: Option<Seq<char>>,
    pub artist: Option<Seq<char>>,
}

/// The payload after its item was looked up, where it is.
pub open spec fn item_stage(payload: ConnectEventView, catalogue: Catalogue) -> ConnectEventView {
    if first_lookup_of(payload, target_readable(payload)) is Item {
        item_filled(payload, catalogue.item)
    } else {
        payload
    }
}

/// The payload after the names in it were looked up, where they are.
pub open spec fn names_stage(payload: ConnectEventView, catalogue: Catalogue) -> ConnectEventView {
    if names_lookup_of(payload, target_readable(payload)) is Track {
        let album = after_track(payload, catalogue.artists);
        let with_album = if album is Album {
            album_filled(payload, catalogue.album)
        } else {
            payload
        };
        if catalogue.artists is Some && after_album(with_album, catalogue.artists->0) is Artist {
            artist_filled(with_album, catalogue.artist)
        } else {
            with_album
        }
    } else {
        payload
    }
}

/// The payload that is passed on.
pub open spec fn enriched(payload: ConnectEventView, catalogue: Catalogue) -> ConnectEventView {
    names_stage(item_stage(payload, catalogue), catalogue)
}

/// Takes a payload through all lookups, where the answers are at hand.
pub fn enrich(payload: ConnectEvent, answers: Answers) -> (filled: ConnectEvent)
    ensures
        filled@ == enriched(payload@, answers@),
{
    let (payload, next) = match first_lookup(&payload) {
        Lookup::Item(_) => with_item(payload, answers.item),
        other => (payload, other),
    };
    let next = match next {
        Lookup::Track(_) => with_track(&payload, answers.artists),
        _ => Lookup::Nothing,
    };
    let (payload, next) = match (next, answers.artists) {
        (Lookup::Album, Some(n)) => with_album(payload, answers.album, n),
        (other, _) => (payload, other),
    };
    match next {
        Lookup::Artist => with_artist(payload, answers.artist),
        _ => payload,
    }
}

/// Enrichment touches nothing but title, artist, album, duration and URI, and takes none of them
/// away.
pub proof fn law_enrichment_keeps(payload: ConnectEventView, catalogue: Catalogue)
    ensures
        ({
            let r = enriched(payload, catalogue);
            &&& r.event_type == payload.event_type
            &&& r.device_id == payload.device_id
            &&& r.session_id == payload.session_id
            &&& r.track_id == payload.track_id
            &&& r.position_ms == payload.position_ms
            &&& r.volume == payload.volume
            &&& r.error_code == payload.error_code
            &&& r.error_message == payload.error_message
            &&& r.metric_name == payload.metric_name
            &&& r.metric_value_ms == payload.metric_value_ms
            &&& r.metric_message == payload.metric_message
            &&& payload.uri is Some ==> r.uri is Some
            &&& payload.title is Some ==> r.title is Some
            &&& payload.duration_ms is Some ==> r.duration_ms is Some
            &&& payload.artist is Some ==> r.artist == payload.artist
            &&& payload.album is Some ==> r.album == payload.album
        }),
{
}

/// Where the catalogue knows a payload's track under a readable URI, the payload that is passed on
/// has the title, the duration and the URI of the catalogue, and the names of album and artist.
pub proof fn law_enrichment_fills(payload: ConnectEventView, catalogue: Catalogue)
    requires
        target_readable(payload),
        payload.title is None,
        payload.artist is None,
        payload.album is None,
        catalogue.item is Some,
        spotify_uri((catalogue.item->0).uri) is Ok,
        catalogue.artists is Some,
        catalogue.artists->0 > 0,
        catalogue.album is Some,
        catalogue.artist is Some,
    ensures
        ({
            let r = enriched(payload, catalogue);
            &&& r.title == Some((catalogue.item->0).name)
            &&& r.duration_ms == Some((catalogue.item->0).duration_ms)
            &&& r.uri == Some((catalogue.item->0).uri)
            &&& r.album == catalogue.album
            &&& r.artist == catalogue.artist
        }),
{
}

/// A payload about no track, such as a change of volume, is passed on as it is.
pub proof fn law_trackless_untouched(payload: ConnectEventView, catalogue: Catalogue)
    requires
        payload.uri is None,
        payload.track_id is None,
    ensures
        enriched(payload, catalogue) == payload,
{
}

/// What a host remembers after it has passed on a series of payloads.
pub open spec fn memory_after(payloads: Seq<ConnectEventView>) -> PlaybackMemory
    decreases payloads.len(),
{
    if payloads.len() == 0 {
        PlaybackMemory { last_position_ms: None, last_duration_ms: None, saw_playing: false }
    } else {
        remembered(memory_after(payloads.drop_last()), payloads.last())
    }
}

/// The last position that a series of payloads tells, if any does.
pub open spec fn told_position(payloads: Seq<ConnectEventView>) -> Option<u32>
    decreases payloads.len(),
{
    if payloads.len() == 0 {
        None
    } else if tells_position(payloads.last()) && payloads.last().position_ms is Some {
        payloads.last().position_ms
    } else {
        told_position(payloads.drop_last())
    }
}

/// The last duration that a series of payloads tells along with a position, if any does.
pub open spec fn told_duration(payloads: Seq<ConnectEventView>) -> Option<u32>
    decreases payloads.len(),
{
    if payloads.len() == 0 {
        None
    } else if tells_position(payloads.last()) && payloads.last().duration_ms is Some {
        payloads.last().duration_ms
    } else {
        told_duration(payloads.drop_last())
    }
}

/// A host passes an end of track on exactly when, before it, some event that tells a position was
/// passed on with a duration. The event is then about the track that ended, and it carries the last
/// position and the last duration told.
pub proof fn law_host_end_of_track(
    payloads: Seq<ConnectEventView>,
    ctx: EventContextView,
    track: crate::spotify::SpotifyItemView,
)
    ensures
        ({
            let payload = player_payload(
                memory_after(payloads),
                ctx,
                PlayerEventView::EndOfTrack { track },
            );
            &&& payload is Some <==> (exists|i: int|
                0 <= i < payloads.len() && tells_position(#[trigger] payloads[i])
                    && payloads[i].duration_ms is Some)
            &&& payload is Some ==> payload->0 == (ConnectEventView {
                position_ms: told_position(payloads),
                duration_ms: told_duration(payloads),
                ..plain_event("end_of_track"@, about(ctx, track))
            })
        }),
{
    lemma_memory(payloads);
}

proof fn lemma_memory(payloads: Seq<ConnectEventView>)
    ensures
        memory_after(payloads).last_position_ms == told_position(payloads),
        memory_after(payloads).last_duration_ms == told_duration(payloads),
        told_duration(payloads) is Some ==> memory_after(payloads).saw_playing,
        told_duration(payloads) is Some <==> (exists|i: int|
            0 <= i < payloads.len() && tells_position(#[trigger] payloads[i])
                && payloads[i].duration_ms is Some),
    decreases payloads.len(),
{
    if payloads.len() > 0 {
        let before = payloads.drop_last();
        let last = payloads.len() - 1;
        lemma_memory(before);
        if tells_position(payloads[last]) && payloads[last].duration_ms is Some {
            assert(told_duration(payloads) is Some);
        } else {
            if told_duration(before) is Some {
                let i = choose|i: int|
                    0 <= i < before.len() && tells_position(#[trigger] before[i])
                        && before[i].duration_ms is Some;
                assert(tells_position(payloads[i]));
            }
            assert forall|i: int|
                0 <= i < payloads.len() && tells_position(#[trigger] payloads[i])
                    && payloads[i].duration_ms is Some implies told_duration(payloads) is Some by {
                assert(tells_position(before[i]));
            }
        }
    }
}

/// A host remembers what an event that plays, pauses or corrects the position told, and nothing of
/// any other event.
pub proof fn law_host_remembers(memory: PlaybackMemory, payload: ConnectEventView)
    ensures
        ({
            let after = remembered(memory, payload);
            let tells = payload.event_type == "playing"@ || payload.event_type == "paused"@
                || payload.event_type == "position_correction"@;
            &&& tells_position(payload) == tells
            &&& !tells ==> after == memory
            &&& tells ==> after.saw_playing
            &&& tells && payload.position_ms is Some ==> after.last_position_ms
                == payload.position_ms
            &&& tells && payload.position_ms is None ==> after.last_position_ms
                == memory.last_position_ms
            &&& tells && payload.duration_ms is Some ==> after.last_duration_ms
                == payload.duration_ms
            &&& tells && payload.duration_ms is None ==> after.last_duration_ms
                == memory.last_duration_ms
        }),
{
}

/// The log of a host's player, beside what every player's log has: a warning whenever a track is
/// found unavailable.
pub proof fn law_host_log(trace: PlayerTrace, ctx: EventContextView, event: PlayerEventView)
    ensures
        ({
            let lines = host_lines(trace, ctx, true, event);
            let usual = trace_lines(trace, true, "connect_host"@, ctx, event_name_of(event));
            &&& lines.len() == usual.len() + (if event is Unavailable {
                1nat
            } else {
                0
            })
            &&& lines.take(usual.len() as int) == usual
            &&& event is Unavailable ==> {
                &&& lines.last().level == "warn"@
                &&& lines.last().message == "player reported track unavailable"@
                &&& lines.last().scope == Some("connect_host"@)
                &&& lines.last().device_id == ctx.device_id
                &&& lines.last().session_id == ctx.session_id
            }
        }),
        host_lines(trace, ctx, false, event).len() == 0,
{
    let lines = host_lines(trace, ctx, true, event);
    let usual = trace_lines(trace, true, "connect_host"@, ctx, event_name_of(event));
    assert(lines.take(usual.len() as int) =~= usual);
}

/// A payload's track is looked up under the payload's own URI, else under one made of its track
/// identifier.
pub proof fn law_lookup_target(payload: ConnectEventView)
    ensures
        payload.uri is Some ==> lookup_target(payload) == payload.uri,
        payload.uri is None && payload.track_id is Some ==> lookup_target(payload) == Some(
            "spotify:track:"@ + payload.track_id->0,
        ),
        payload.uri is None && payload.track_id is None ==> lookup_target(payload) is None,
        target_readable(payload) <==> lookup_target(payload) is Some && spotify_uri(
            lookup_target(payload)->0,
        ) is Ok,
{
}

/// What is looked up, and when: first the item, where its title, duration or URI is missing; then
/// the track, where a name is missing; both under the URI of the payload, and only where that can
/// be read.
pub proof fn law_lookups(payload: ConnectEventView, readable: bool)
    requires
        lookup_target(payload) is Some,
    ensures
        ({
            let bare = payload.title is None || payload.duration_ms is None || payload.uri is None;
            let nameless = payload.artist is None || payload.album is None;
            let uri = lookup_target(payload)->0;
            let first = first_lookup_of(payload, readable);
            let second = names_lookup_of(payload, readable);
            &&& readable && bare ==> first == LookupView::Item(uri)
            &&& readable && nameless ==> second == LookupView::Track(uri)
            &&& !readable || !nameless ==> second == LookupView::Nothing
            &&& !readable || !bare ==> first == second
        }),
{
}

/// What is looked up once the track is known: its album where that is missing, then its first
/// artist, where that is missing and there is one.
pub proof fn law_name_lookups(payload: ConnectEventView, artists: nat)
    ensures
        after_track(payload, None) == LookupView::Nothing,
        payload.album is None ==> after_track(payload, Some(artists)) == LookupView::Album,
        payload.album is Some ==> after_track(payload, Some(artists)) == after_album(
            payload,
            artists,
        ),
        payload.artist is None && artists > 0 ==> after_album(payload, artists)
            == LookupView::Artist,
        payload.artist is Some || artists == 0 ==> after_album(payload, artists)
            == LookupView::Nothing,
{
}

/// What an answer of the catalogue fills in: the title, the duration and the URI of the item; the
/// name of the album; the name of the artist. No answer fills in nothing, and all else stays.
pub proof fn law_answers_fill(
    payload: ConnectEventView,
    info: ItemInfoView,
    name: Seq<char>,
)
    ensures
        item_filled(payload, None) == payload,
        album_filled(payload, None) == payload,
        artist_filled(payload, None) == payload,
        item_filled(payload, Some(info)) == (ConnectEventView {
            title: Some(info.name),
            duration_ms: Some(info.duration_ms),
            uri: Some(info.uri),
            ..payload
        }),
        album_filled(payload, Some(name)) == (ConnectEventView { album: Some(name), ..payload }),
        artist_filled(payload, Some(name)) == (ConnectEventView { artist: Some(name), ..payload }),
{
}

/// What is found is passed on, each thing for itself. Where the item of a bare payload is found, its
/// title, duration and URI are passed on. Where a track is found under a readable URI, so are the
/// names that are found and were missing: the album's, and the first artist's, where it has one.
pub proof fn law_enrichment_parts(payload: ConnectEventView, catalogue: Catalogue)
    requires
        target_readable(payload),
        payload.title is None || payload.duration_ms is None || payload.uri is None,
    ensures
        ({
            let r = enriched(payload, catalogue);
            let known = item_filled(payload, catalogue.item);
            let found = target_readable(known) && catalogue.artists is Some;
            &&& catalogue.item is Some ==> r.title == Some((catalogue.item->0).name)
                && r.duration_ms == Some((catalogue.item->0).duration_ms) && r.uri == Some(
                (catalogue.item->0).uri,
            )
            &&& catalogue.item is None ==> r.title == payload.title && r.duration_ms
                == payload.duration_ms && r.uri == payload.uri
            &&& payload.album is None && found ==> r.album == catalogue.album
            &&& payload.album is None && !found ==> r.album is None
            &&& payload.artist is None && found && catalogue.artists->0 > 0 ==> r.artist
                == catalogue.artist
            &&& payload.artist is None && (!found || catalogue.artists->0 == 0) ==> r.artist is None
        }),
{
}

/// A host is a single speaker under its own name, at full volume, whose volume can be controlled in
/// 64 steps.
pub proof fn law_host_settings(name: Seq<char>)
    ensures
        settings_for(name).name == name,
        settings_for(name).device_type == DeviceType::Speaker,
        !settings_for(name).is_group,
        !settings_for(name).emit_set_queue_events,
        settings_for(name).initial_volume == 65535,
        !settings_for(name).disable_volume,
        settings_for(name).volume_steps == 64,
{
}

/// What is stated of answers, settings and lookups is stated of each of their fields.
pub proof fn law_connect_fields(
    info: ItemInfo,
    answers: Answers,
    settings: ConnectSettings,
    lookup: Lookup,
)
    ensures
        info@.name == info.name@,
        info@.duration_ms == info.duration_ms,
        info@.uri == info.uri@,
        info_view(Some(info)) == Some(info@),
        info_view(None) is None,
        answers@.item == info_view(answers.item),
        answers@.artists is Some <==> answers.artists is Some,
        answers.artists is Some ==> answers@.artists->0 == answers.artists->0,
        answers@.album == crate::text::opt_view(answers.album),
        answers@.artist == crate::text::opt_view(answers.artist),
        settings@.name == settings.name@,
        settings@.device_type == settings.device_type,
        settings@.is_group == settings.is_group,
        settings@.emit_set_queue_events == settings.emit_set_queue_events,
        settings@.initial_volume == settings.initial_volume,
        settings@.disable_volume == settings.disable_volume,
        settings@.volume_steps == settings.volume_steps,
        match lookup {
            Lookup::Item(uri) => lookup@ == LookupView::Item(uri@),
            Lookup::Track(uri) => lookup@ == LookupView::Track(uri@),
            Lookup::Album => lookup@ == LookupView::Album,
            Lookup::Artist => lookup@ == LookupView::Artist,
            Lookup::Nothing => lookup@ == LookupView::Nothing,
        },
{
}

} // verus!
