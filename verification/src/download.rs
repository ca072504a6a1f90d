//! Requests to download a track, and the loop that delivers it.

use vstd::prelude::*;

use crate::error::Error;
use crate::events::{log_views, EventContext, LogEvent, LogEventView};
use crate::formats::{
    half_kib_per_second, preferred, select_format, selection, stream_data_rate, AudioFileFormat,
    AudioFiles, FileId,
};
use crate::handles::DownloadHandle;
use crate::logging::push_log;
use crate::session::{step_failed, LibrespotSession, Step};
use crate::spotify::{item_view, number_view, read_id, read_uri, spotify_id, spotify_uri};
use crate::spotify::{SpotifyItem, SpotifyItemView};
use crate::text::concat;
use crate::tracks::{accept_item, item_for};

verus! {

/// The scope under which a download logs.
pub open spec fn download_scope() -> Seq<char> {
    "download_track"@
}

/// Options for downloading a track.
#[derive(Debug)]
pub struct DownloadTrackOpts {
    pub uri: String,
    pub bitrate: Option<u32>,
}

/// A download that is to be started.
#[derive(Debug)]
pub struct DownloadRequest {
    /// The URI as the caller gave it.
    pub uri: String,
    pub item: SpotifyItem,
    pub device_id: String,
    pub bitrate: Option<u32>,
}

/// A [`DownloadRequest`] as mathematical values.
#[verifier::ext_equal]
pub struct DownloadRequestView {
    pub uri: Seq<char>,
    pub item: SpotifyItemView,
    pub device_id: Seq<char>,
    pub bitrate: Option<u32>,
}

impl View for DownloadRequest {
    type V = DownloadRequestView;

    open spec fn view(&self) -> DownloadRequestView {
        DownloadRequestView {
            uri: self.uri@,
            item: self.item@,
            device_id: self.device_id@,
            bitrate: self.bitrate,
        }
    }
}

/// A request, or the reason why there is none.
pub open spec fn download_request_view(r: Result<DownloadRequest, Error>) -> Result<
    DownloadRequestView,
    Seq<char>,
> {
    match r {
        Ok(request) => Ok(request@),
        Err(e) => Err(e@),
    }
}

/// The download that options ask for, or the reason why they are refused. `item` is what reading
/// the URI gives.
pub open spec fn download_for(
    device_id: Seq<char>,
    opts: DownloadTrackOpts,
    item: Result<(Seq<char>, Seq<char>), Seq<char>>,
) -> Result<DownloadRequestView, Seq<char>> {
    match item_for(opts.uri@, item) {
        Ok(item) => Ok(
            DownloadRequestView { uri: opts.uri@, item, device_id, bitrate: opts.bitrate },
        ),
        Err(reason) => Err(reason),
    }
}

impl LibrespotSession {
    /// The download that options ask for, where `item` is what reading the URI gives.
    pub fn download_track_given(
        &self,
        opts: DownloadTrackOpts,
        item: Result<SpotifyItem, String>,
    ) -> (r: Result<DownloadRequest, Error>)
        ensures
            download_request_view(r) == download_for(self.device_id@, opts, item_view(item)),
    {
        match accept_item(opts.uri.as_str(), item) {
            Ok(item) => Ok(
                DownloadRequest {
                    uri: opts.uri,
                    item,
                    device_id: self.device_id.clone(),
                    bitrate: opts.bitrate,
                },
            ),
            Err(e) => Err(e),
        }
    }

    /// Downloads the decrypted audio file of a track or an episode.
    pub fn download_track(&self, opts: DownloadTrackOpts) -> (r: Result<DownloadRequest, Error>)
        ensures
            download_request_view(r) == download_for(
                self.device_id@,
                opts,
                spotify_uri(opts.uri@),
            ),
    {
        let item = read_uri(opts.uri.as_str());
        self.download_track_given(opts, item)
    }
}

/// The number of the track under which its key is requested, or the reason why there is none.
pub open spec fn track_number_for(number: Result<u128, Seq<char>>) -> Result<u128, Seq<char>> {
    match number {
        Ok(number) => Ok(number),
        Err(text) => Err("invalid spotify id: "@ + text),
    }
}

/// A number, or the reason why there is none.
pub open spec fn track_number_view(r: Result<u128, Error>) -> Result<u128, Seq<char>> {
    match r {
        Ok(number) => Ok(number),
        Err(e) => Err(e@),
    }
}

/// The number of a track, where `number` is what reading it gives.
pub fn accept_number(number: Result<u128, String>) -> (r: Result<u128, Error>)
    ensures
        track_number_view(r) == track_number_for(number_view(number)),
{
    match number {
        Ok(number) => Ok(number),
        Err(text) => Err(Error::with_detail("invalid spotify id: ", text.as_str())),
    }
}

/// The file that is to be downloaded.
#[derive(Clone, Copy, Debug)]
pub struct FileChoice {
    pub format: AudioFileFormat,
    pub file_id: FileId,
    pub bytes_per_second: usize,
}

/// The line that logs the start of a download.
pub open spec fn download_start_line(
    request: DownloadRequestView,
    session_id: Seq<char>,
    logging: bool,
) -> Seq<LogEventView> {
    if logging {
        seq![
            LogEventView {
                level: "info"@,
                message: "download_track start uri="@ + request.uri,
                scope: Some(download_scope()),
                device_id: Some(request.device_id),
                session_id: Some(session_id),
            },
        ]
    } else {
        Seq::empty()
    }
}

impl DownloadRequest {
    /// Starts the download under the given session identifier.
    pub fn begin(&self, session_id: String, logging: bool) -> (logs: Vec<LogEvent>)
        ensures
            log_views(logs@) == download_start_line(self@, session_id@, logging),
    {
        let ctx = EventContext {
            device_id: Some(self.device_id.clone()),
            session_id: Some(session_id),
            track_id: None,
            uri: None,
        };
        let message = concat("download_track start uri=", self.uri.as_str());
        let mut logs: Vec<LogEvent> = Vec::new();
        assert(log_views(logs@) =~= Seq::empty());
        push_log(&mut logs, logging, "info", message.as_str(), "download_track", &ctx);
        assert(log_views(logs@) =~= download_start_line(self@, session_id@, logging));
        logs
    }

    /// The number of the track under which its key is requested.
    pub fn track_number(&self) -> (r: Result<u128, Error>)
        ensures
            track_number_view(r) == track_number_for(spotify_id(self@.uri)),
    {
        accept_number(read_id(self.uri.as_str()))
    }

    /// The file to download, where `files` are those in which the item is stored, or the text of
    /// the error with which looking the item up failed.
    pub fn choose_file(&self, files: Result<AudioFiles, String>) -> (r: Result<FileChoice, Error>)
        ensures
            match files {
                Err(text) => r is Err && r->Err_0@ == "failed to load audio item: "@ + text@,
                Ok(files) => match selection(files@, preferred(self.bitrate)) {
                    None => r is Err && r->Err_0@ == "no audio files available"@,
                    Some(choice) => r is Ok && r->Ok_0.format == choice.0 && r->Ok_0.file_id
                        == choice.1 && r->Ok_0.bytes_per_second == half_kib_per_second(choice.0)
                        * 512,
                },
            },
    {
        let files = match files {
            Ok(files) => files,
            Err(text) => return Err(step_failed(Step::LoadItem, text.as_str())),
        };
        match select_format(&files, self.bitrate) {
            None => Err(Error::from_reason("no audio files available")),
            Some((format, file_id)) => match stream_data_rate(format) {
                None => Err(Error::from_reason("unable to compute data rate")),
                Some(bytes_per_second) => Ok(FileChoice { format, file_id, bytes_per_second }),
            },
        }
    }
}

/// Why the file or its key could not be fetched; the text is that of the error.
#[derive(Debug)]
pub enum FetchFailure {
    NoFile(String),
    NoKey(String),
}

/// The reason that a caller is given for a failure to fetch.
pub open spec fn fetch_reason(failure: FetchFailure) -> Seq<char> {
    match failure {
        FetchFailure::NoFile(text) => "failed to open audio file: "@ + text@,
        FetchFailure::NoKey(text) => "audio key unavailable: "@ + text@,
    }
}

/// The error for a failure to fetch.
pub fn fetch_failed(failure: FetchFailure) -> (e: Error)
    ensures
        e@ == fetch_reason(failure),
{
    match failure {
        FetchFailure::NoFile(text) => step_failed(Step::OpenFile, text.as_str()),
        FetchFailure::NoKey(text) => Error::with_detail("audio key unavailable: ", text.as_str()),
    }
}

/// The handle of the download, once the file and its key have been fetched. Without the key there
/// is no download: audio that cannot be decrypted is not delivered.
pub fn download_started(fetched: Result<(), FetchFailure>) -> (r: Result<DownloadHandle, Error>)
    ensures
        match fetched {
            Ok(_) => r is Ok,
            Err(failure) => r is Err && r->Err_0@ == fetch_reason(failure),
        },
{
    match fetched {
        Ok(_) => Ok(DownloadHandle {  }),
        Err(failure) => Err(fetch_failed(failure)),
    }
}

/// How many bytes are read at once.
pub const CHUNK_BYTES: usize = 32768;

/// Something that happens to a download.
#[derive(Debug)]
pub enum DownloadEvent {
    /// The next round starts; the download has been stopped or not.
    Round { stopped: bool },
    /// These bytes were read; there are none at the end of the file.
    Read { bytes: Vec<u8> },
    /// Reading failed; the text is that of the error.
    ReadFailed { text: String },
    /// The bytes were queued, or nobody is there to receive them.
    Queued { accepted: bool },
}

/// What a download does next.
#[derive(Debug)]
pub enum DownloadAction {
    /// Read up to [`CHUNK_BYTES`] bytes.
    Read,
    /// Queue these bytes for the caller.
    Queue { bytes: Vec<u8> },
    /// Start the next round.
    NextRound,
    End,
}

/// A [`DownloadEvent`] as mathematical values.
pub enum DownloadEventView {
    Round { stopped: bool },
    Read { bytes: Seq<u8> },
    ReadFailed { text: Seq<char> },
    Queued { accepted: bool },
}

/// A [`DownloadAction`] as mathematical values.
pub enum DownloadActionView {
    Read,
    Queue { bytes: Seq<u8> },
    NextRound,
    End,
}

impl View for DownloadEvent {
    type V = DownloadEventView;

    open spec fn view(&self) -> DownloadEventView {
        match *self {
            DownloadEvent::Round { stopped } => DownloadEventView::Round { stopped },
            DownloadEvent::Read { bytes } => DownloadEventView::Read { bytes: bytes@ },
            DownloadEvent::ReadFailed { text } => DownloadEventView::ReadFailed { text: text@ },
            DownloadEvent::Queued { accepted } => DownloadEventView::Queued { accepted },
        }
    }
}

impl View for DownloadAction {
    type V = DownloadActionView;

    open spec fn view(&self) -> DownloadActionView {
        match *self {
            DownloadAction::Read => DownloadActionView::Read,
            DownloadAction::Queue { bytes } => DownloadActionView::Queue { bytes: bytes@ },
            DownloadAction::NextRound => DownloadActionView::NextRound,
            DownloadAction::End => DownloadActionView::End,
        }
    }
}

/// What a download does after `event`.
pub open spec fn download_action(event: DownloadEventView) -> DownloadActionView {
    match event {
        DownloadEventView::Round { stopped } => if stopped {
            DownloadActionView::End
        } else {
            DownloadActionView::Read
        },
        DownloadEventView::Read { bytes } => if bytes.len() == 0 {
            DownloadActionView::End
        } else {
            DownloadActionView::Queue { bytes }
        },
        DownloadEventView::ReadFailed { text } => DownloadActionView::End,
        DownloadEventView::Queued { accepted } => if accepted {
            DownloadActionView::NextRound
        } else {
            DownloadActionView::End
        },
    }
}

/// The lines that log `event`: a failure to read, about no device and no session.
pub open spec fn download_lines(event: DownloadEventView, logging: bool) -> Seq<LogEventView> {
    match event {
        DownloadEventView::ReadFailed { text } => if logging {
            seq![
                LogEventView {
                    level: "error"@,
                    message: "read error: "@ + text,
                    scope: Some(download_scope()),
                    device_id: None,
                    session_id: None,
                },
            ]
        } else {
            Seq::empty()
        },
        _ => Seq::empty(),
    }
}

/// What an event of a download led to.
#[derive(Debug)]
pub struct DownloadReport {
    pub logs: Vec<LogEvent>,
    pub action: DownloadAction,
}

/// Takes in an event of a download.
pub fn on_download_event(event: DownloadEvent, logging: bool) -> (report: DownloadReport)
    ensures
        report.action@ == download_action(event@),
        log_views(report.logs@) == download_lines(event@, logging),
{
    let mut logs: Vec<LogEvent> = Vec::new();
    assert(log_views(logs@) =~= Seq::empty());
    let ghost event0 = event@;
    let action = match event {
        DownloadEvent::Round { stopped } => if stopped {
            DownloadAction::End
        } else {
            DownloadAction::Read
        },
        DownloadEvent::Read { bytes } => if bytes.len() == 0 {
            DownloadAction::End
        } else {
            DownloadAction::Queue { bytes }
        },
        DownloadEvent::ReadFailed { text } => {
            let ctx = EventContext { device_id: None, session_id: None, track_id: None, uri: None };
            let message = concat("read error: ", text.as_str());
            push_log(&mut logs, logging, "error", message.as_str(), "download_track", &ctx);
            DownloadAction::End
        },
        DownloadEvent::Queued { accepted } => if accepted {
            DownloadAction::NextRound
        } else {
            DownloadAction::End
        },
    };
    assert(log_views(logs@) =~= download_lines(event0, logging));
    DownloadReport { logs, action }
}

/// Whether a queued chunk is passed on to the caller: not once the download has been stopped.
pub fn passes_on(stopped: bool) -> (r: bool)
    ensures
        r == !stopped,
{
    !stopped
}

/// One round of a download: whether it finds the download stopped, what it reads or the text of the
/// error with which reading fails, and whether the caller's queue takes it.
pub struct Round {
    pub stopped: bool,
    pub read: Result<Seq<u8>, Seq<char>>,
    pub accepted: bool,
}

/// What reading in a round amounts to.
pub open spec fn read_event(round: Round) -> DownloadEventView {
    match round.read {
        Ok(bytes) => DownloadEventView::Read { bytes },
        Err(text) => DownloadEventView::ReadFailed { text },
    }
}

/// The round gets as far as reading.
pub open spec fn reads(round: Round) -> bool {
    download_action(DownloadEventView::Round { stopped: round.stopped }) is Read
}

/// The piece that a round queues: none, or the bytes that it read.
pub open spec fn pieces_in(round: Round) -> Seq<Seq<u8>> {
    if reads(round) && round.accepted {
        match download_action(read_event(round)) {
            DownloadActionView::Queue { bytes } => seq![bytes],
            _ => Seq::empty(),
        }
    } else {
        Seq::empty()
    }
}

/// The lines that a round logs.
pub open spec fn lines_in(round: Round, logging: bool) -> Seq<LogEventView> {
    if reads(round) {
        download_lines(read_event(round), logging)
    } else {
        Seq::empty()
    }
}

/// Another round follows this one.
pub open spec fn goes_on(round: Round) -> bool {
    &&& reads(round)
    &&& download_action(read_event(round)) is Queue
    &&& download_action(DownloadEventView::Queued { accepted: round.accepted }) is NextRound
}

/// The pieces that a download queues, where `rounds` tells what each round would meet.
pub open spec fn pieces(rounds: Seq<Round>) -> Seq<Seq<u8>>
    decreases rounds.len(),
{
    if rounds.len() == 0 {
        Seq::empty()
    } else if goes_on(rounds.first()) {
        pieces_in(rounds.first()) + pieces(rounds.drop_first())
    } else {
        pieces_in(rounds.first())
    }
}

/// The bytes of all pieces, one after the other.
pub open spec fn joined(pieces: Seq<Seq<u8>>) -> Seq<u8>
    decreases pieces.len(),
{
    if pieces.len() == 0 {
        Seq::empty()
    } else {
        pieces.first() + joined(pieces.drop_first())
    }
}

/// The bytes that a download queues.
pub open spec fn queued(rounds: Seq<Round>) -> Seq<u8> {
    joined(pieces(rounds))
}

/// The lines that a download logs.
pub open spec fn logged(rounds: Seq<Round>, logging: bool) -> Seq<LogEventView>
    decreases rounds.len(),
{
    if rounds.len() == 0 {
        Seq::empty()
    } else if goes_on(rounds.first()) {
        lines_in(rounds.first(), logging) + logged(rounds.drop_first(), logging)
    } else {
        lines_in(rounds.first(), logging)
    }
}

/// The bytes that rounds read, one after the other.
pub open spec fn read_in(rounds: Seq<Round>) -> Seq<u8>
    decreases rounds.len(),
{
    if rounds.len() == 0 {
        Seq::empty()
    } else {
        (match rounds.first().read {
            Ok(bytes) => bytes,
            Err(_) => Seq::empty(),
        }) + read_in(rounds.drop_first())
    }
}

/// Every round that reads is given the next bytes of `file`, at most [`CHUNK_BYTES`] of them, and
/// none only at the end of the file.
pub open spec fn reads_file(rounds: Seq<Round>, file: Seq<u8>) -> bool
    decreases rounds.len(),
{
    rounds.len() > 0 ==> match rounds.first().read {
        Ok(bytes) => {
            &&& bytes.len() <= CHUNK_BYTES
            &&& bytes.len() <= file.len()
            &&& bytes == file.take(bytes.len() as int)
            &&& bytes.len() == 0 ==> file.len() == 0
            &&& reads_file(rounds.drop_first(), file.skip(bytes.len() as int))
        },
        Err(_) => reads_file(rounds.drop_first(), file),
    }
}

/// No round is stopped, fails to read or is turned away by the caller's queue.
pub open spec fn undisturbed(rounds: Seq<Round>) -> bool {
    forall|i: int|
        0 <= i < rounds.len() ==> !(#[trigger] rounds[i]).stopped && rounds[i].accepted
            && rounds[i].read is Ok
}

proof fn lemma_queued_step(rounds: Seq<Round>)
    requires
        rounds.len() > 0,
    ensures
        goes_on(rounds.first()) ==> queued(rounds) == rounds.first().read->Ok_0 + queued(
            rounds.drop_first(),
        ),
        !goes_on(rounds.first()) ==> queued(rounds).len() == 0,
{
    let rest = pieces(rounds.drop_first());
    if goes_on(rounds.first()) {
        let all = pieces(rounds);
        assert(all.first() == rounds.first().read->Ok_0);
        assert(all.drop_first() =~= rest);
    } else {
        assert(pieces(rounds) =~= Seq::empty());
    }
}

/// The file comes whole and in order: where nothing disturbs the download, until a round finds the
/// end of the file, all that was read is queued.
pub proof fn law_download_whole(rounds: Seq<Round>)
    requires
        rounds.len() > 0,
        undisturbed(rounds),
        forall|i: int| 0 <= i < rounds.len() - 1 ==> (#[trigger] rounds[i]).read->Ok_0.len() > 0,
        rounds.last().read->Ok_0.len() == 0,
    ensures
        queued(rounds) == read_in(rounds),
    decreases rounds.len(),
{
    let first = rounds.first();
    assert(first == rounds[0]);
    lemma_queued_step(rounds);
    if rounds.len() == 1 {
        assert(read_in(rounds.drop_first()) =~= Seq::empty());
        assert(queued(rounds) =~= read_in(rounds));
    } else {
        let rest = rounds.drop_first();
        assert forall|i: int| 0 <= i < rest.len() implies #[trigger] rest[i] == rounds[i + 1] by {}
        law_download_whole(rest);
    }
}

/// However a download ends, at the end of the file, at a stop, at a failure to read or because
/// nobody receives it any more: what was queued until then is the beginning of what was read.
pub proof fn law_download_prefix(rounds: Seq<Round>)
    ensures
        queued(rounds).len() <= read_in(rounds).len(),
        queued(rounds) == read_in(rounds).take(queued(rounds).len() as int),
    decreases rounds.len(),
{
    if rounds.len() == 0 {
        assert(queued(rounds) =~= read_in(rounds).take(0));
    } else {
        lemma_queued_step(rounds);
        law_download_prefix(rounds.drop_first());
        assert(queued(rounds) =~= read_in(rounds).take(queued(rounds).len() as int));
    }
}

/// What a caller gets of a file. At any time the pieces, one after the other, are the beginning of
/// the file; each of them has at least one byte and at most [`CHUNK_BYTES`].
pub proof fn law_download_of_file(rounds: Seq<Round>, file: Seq<u8>)
    requires
        reads_file(rounds, file),
    ensures
        queued(rounds).len() <= file.len(),
        queued(rounds) == file.take(queued(rounds).len() as int),
        forall|i: int|
            0 <= i < pieces(rounds).len() ==> 1 <= (#[trigger] pieces(rounds)[i]).len()
                <= CHUNK_BYTES,
    decreases rounds.len(),
{
    if rounds.len() == 0 {
        assert(queued(rounds) =~= file.take(0));
    } else {
        lemma_queued_step(rounds);
        if goes_on(rounds.first()) {
            let n = rounds.first().read->Ok_0.len() as int;
            law_download_of_file(rounds.drop_first(), file.skip(n));
            assert(queued(rounds) =~= file.take(queued(rounds).len() as int));
        } else {
            assert(queued(rounds) =~= file.take(0));
        }
    }
}

/// Undisturbed, a download that reaches the end of the file has delivered all of it.
pub proof fn law_download_of_whole_file(rounds: Seq<Round>, file: Seq<u8>)
    requires
        rounds.len() > 0,
        reads_file(rounds, file),
        undisturbed(rounds),
        rounds.last().read->Ok_0.len() == 0,
    ensures
        queued(rounds) == file,
    decreases rounds.len(),
{
    let first = rounds.first();
    assert(first == rounds[0]);
    lemma_queued_step(rounds);
    if first.read->Ok_0.len() == 0 {
        assert(queued(rounds) =~= file);
    } else {
        let rest = rounds.drop_first();
        let n = first.read->Ok_0.len() as int;
        assert(rounds.len() > 1);
        assert forall|i: int| 0 <= i < rest.len() implies #[trigger] rest[i] == rounds[i + 1] by {}
        law_download_of_whole_file(rest, file.skip(n));
        assert(queued(rounds) =~= file);
    }
}

/// Once a round finds the download stopped, nothing more is queued, whatever would follow.
pub proof fn law_download_stops(rounds: Seq<Round>, k: int)
    requires
        0 <= k < rounds.len(),
        rounds[k].stopped,
    ensures
        pieces(rounds) == pieces(rounds.take(k)),
        queued(rounds) == queued(rounds.take(k)),
    decreases rounds.len(),
{
    if k == 0 {
        assert(rounds.take(0).len() == 0);
        assert(pieces(rounds) =~= Seq::empty());
    } else {
        assert(rounds.take(k).first() == rounds.first());
        assert(rounds.take(k).drop_first() =~= rounds.drop_first().take(k - 1));
        law_download_stops(rounds.drop_first(), k - 1);
    }
}

/// A download logs at most one line while it runs. A round that is reached and fails to read logs
/// it, and ends the download: nothing that would follow is queued or logged.
pub proof fn law_read_error_ends(rounds: Seq<Round>, k: int, logging: bool)
    requires
        0 <= k < rounds.len(),
        forall|i: int| 0 <= i < k ==> goes_on(#[trigger] rounds[i]),
        !rounds[k].stopped,
        rounds[k].read is Err,
    ensures
        logged(rounds, logging) == download_lines(read_event(rounds[k]), logging),
        logged(rounds, logging).len() == (if logging {
            1nat
        } else {
            0
        }),
        pieces(rounds) == pieces(rounds.take(k)),
    decreases rounds.len(),
{
    if k == 0 {
        assert(rounds.first() == rounds[0]);
        assert(rounds.take(0).len() == 0);
        assert(pieces(rounds) =~= Seq::empty());
    } else {
        let rest = rounds.drop_first();
        assert(goes_on(rounds[0]));
        assert forall|i: int| 0 <= i < k - 1 implies goes_on(#[trigger] rest[i]) by {
            assert(goes_on(rounds[i + 1]));
        }
        law_read_error_ends(rest, k - 1, logging);
        assert(rounds.take(k).first() == rounds.first());
        assert(rounds.take(k).drop_first() =~= rest.take(k - 1));
        assert(logged(rounds, logging) =~= logged(rest, logging));
    }
}

/// Where no round fails to read, nothing is logged.
pub proof fn law_no_error_no_line(rounds: Seq<Round>, logging: bool)
    requires
        forall|i: int| 0 <= i < rounds.len() ==> (#[trigger] rounds[i]).read is Ok,
    ensures
        logged(rounds, logging).len() == 0,
    decreases rounds.len(),
{
    if rounds.len() > 0 {
        let rest = rounds.drop_first();
        assert(rounds[0].read is Ok);
        assert forall|i: int| 0 <= i < rest.len() implies (#[trigger] rest[i]).read is Ok by {
            assert(rounds[i + 1].read is Ok);
        }
        law_no_error_no_line(rest, logging);
    }
}

} // verus!
