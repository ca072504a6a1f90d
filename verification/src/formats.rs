//! Audio file formats: how fast each is read, and which one is picked.

use vstd::prelude::*;

verus! {

/// The formats in which a track or an episode can be stored.
#[derive(Clone, Copy, Debug, PartialEq, Eq, Structural)]
pub enum AudioFileFormat {
    OggVorbis96,
    OggVorbis160,
    OggVorbis320,
    Mp3At256,
    Mp3At320,
    Mp3At160,
    Mp3At96,
    Mp3At160Enc,
    Aac24,
    Aac48,
    Aac160,
    Aac320,
    Mp4At128,
    Other5,
    Flac,
    Flac24Bit,
    XheAac12,
    XheAac16,
    XheAac24,
}

/// The rate of a format, in units of half a kibibyte per second.
pub open spec fn half_kib_per_second(format: AudioFileFormat) -> int {
    match format {
        AudioFileFormat::OggVorbis96 => 24,
        AudioFileFormat::OggVorbis160 => 40,
        AudioFileFormat::OggVorbis320 => 80,
        AudioFileFormat::Mp3At256 => 64,
        AudioFileFormat::Mp3At320 => 80,
        AudioFileFormat::Mp3At160 => 40,
        AudioFileFormat::Mp3At96 => 24,
        AudioFileFormat::Mp3At160Enc => 40,
        AudioFileFormat::Aac24 => 6,
        AudioFileFormat::Aac48 => 12,
        AudioFileFormat::Aac160 => 40,
        AudioFileFormat::Aac320 => 80,
        AudioFileFormat::Mp4At128 => 32,
        AudioFileFormat::Other5 => 80,
        AudioFileFormat::Flac => 224,
        AudioFileFormat::Flac24Bit => 6,
        AudioFileFormat::XheAac12 => 3,
        AudioFileFormat::XheAac16 => 4,
        AudioFileFormat::XheAac24 => 6,
    }
}

/// The rate, in bytes per second, at which a file of the given format is fetched.
pub fn stream_data_rate(format: AudioFileFormat) -> (rate: Option<usize>)
    ensures
        rate is Some,
        rate->0 == half_kib_per_second(format) * 512,
{
    let half_kib: usize = match format {
        AudioFileFormat::OggVorbis96 => 24,
        AudioFileFormat::OggVorbis160 => 40,
        AudioFileFormat::OggVorbis320 => 80,
        AudioFileFormat::Mp3At256 => 64,
        AudioFileFormat::Mp3At320 => 80,
        AudioFileFormat::Mp3At160 => 40,
        AudioFileFormat::Mp3At96 => 24,
        AudioFileFormat::Mp3At160Enc => 40,
        AudioFileFormat::Aac24 => 6,
        AudioFileFormat::Aac48 => 12,
        AudioFileFormat::Aac160 => 40,
        AudioFileFormat::Aac320 => 80,
        AudioFileFormat::Mp4At128 => 32,
        AudioFileFormat::Other5 => 80,
        // Close to 900 kbit/s.
        AudioFileFormat::Flac => 224,
        AudioFileFormat::Flac24Bit => 6,
        AudioFileFormat::XheAac12 => 3,
        AudioFileFormat::XheAac16 => 4,
        AudioFileFormat::XheAac24 => 6,
    };
    Some(half_kib * 512)
}

/// The identifier of a stored file.
pub type FileId = [u8; 20];

/// The files in which an item is stored. A catalogue lists each format once at most
/// ([`each_format_once`]); the order is that in which it happens to list them.
pub type AudioFiles = Vec<(AudioFileFormat, FileId)>;

/// No format is listed twice.
pub open spec fn each_format_once(files: Seq<(AudioFileFormat, FileId)>) -> bool {
    forall|i: int, j: int|
        0 <= i < j < files.len() ==> (#[trigger] files[i]).0 != (#[trigger] files[j]).0
}

/// Both lists hold the same files, in whatever order.
pub open spec fn same_files(
    files: Seq<(AudioFileFormat, FileId)>,
    others: Seq<(AudioFileFormat, FileId)>,
) -> bool {
    forall|file: (AudioFileFormat, FileId)|
        #[trigger] files.contains(file) <==> others.contains(file)
}

/// The file of the given format: the first one listed.
pub open spec fn file_of(files: Seq<(AudioFileFormat, FileId)>, format: AudioFileFormat) -> Option<
    FileId,
>
    decreases files.len(),
{
    if files.len() == 0 {
        None
    } else if files.first().0 == format {
        Some(files.first().1)
    } else {
        file_of(files.drop_first(), format)
    }
}

/// The formats to look for, the best one first.
pub open spec fn preferred(bitrate: Option<u32>) -> Seq<AudioFileFormat> {
    if bitrate == Some(96u32) {
        seq![AudioFileFormat::OggVorbis96, AudioFileFormat::Mp3At96]
    } else if bitrate == Some(160u32) {
        seq![AudioFileFormat::OggVorbis160, AudioFileFormat::Mp3At160]
    } else {
        seq![
            AudioFileFormat::OggVorbis320,
            AudioFileFormat::Mp3At320,
            AudioFileFormat::Mp3At256,
        ]
    }
}

/// The file of the first wanted format that there is; where there is none of them, the first file
/// listed.
pub open spec fn selection(
    files: Seq<(AudioFileFormat, FileId)>,
    wanted: Seq<AudioFileFormat>,
) -> Option<(AudioFileFormat, FileId)>
    decreases wanted.len(),
{
    if wanted.len() == 0 {
        if files.len() == 0 {
            None
        } else {
            Some(files.first())
        }
    } else {
        match file_of(files, wanted.first()) {
            Some(id) => Some((wanted.first(), id)),
            None => selection(files, wanted.drop_first()),
        }
    }
}

fn find_file(files: &AudioFiles, format: AudioFileFormat) -> (id: Option<FileId>)
    ensures
        id == file_of(files@, format),
{
    let mut i: usize = 0;
    assert(files@.skip(0) =~= files@);
    while i < files.len()
        invariant
            i <= files@.len(),
            file_of(files@, format) == file_of(files@.skip(i as int), format),
        decreases files@.len() - i,
    {
        assert(files@.skip(i as int).drop_first() =~= files@.skip(i + 1));
        if files[i].0 == format {
            return Some(files[i].1);
        }
        i = i + 1;
    }
    None
}

fn preferred_formats(bitrate: Option<u32>) -> (wanted: Vec<AudioFileFormat>)
    ensures
        wanted@ == preferred(bitrate),
{
    let wanted = match bitrate {
        Some(96) => vec![AudioFileFormat::OggVorbis96, AudioFileFormat::Mp3At96],
        Some(160) => vec![AudioFileFormat::OggVorbis160, AudioFileFormat::Mp3At160],
        _ => vec![
            AudioFileFormat::OggVorbis320,
            AudioFileFormat::Mp3At320,
            AudioFileFormat::Mp3At256,
        ],
    };
    assert(wanted@ =~= preferred(bitrate));
    wanted
}

/// Picks the file to download for the given bitrate.
pub fn select_format(files: &AudioFiles, bitrate: Option<u32>) -> (choice: Option<
    (AudioFileFormat, FileId),
>)
    ensures
        choice == selection(files@, preferred(bitrate)),
{
    let wanted = preferred_formats(bitrate);
    let mut i: usize = 0;
    assert(wanted@.skip(0) =~= wanted@);
    while i < wanted.len()
        invariant
            i <= wanted@.len(),
            wanted@ == preferred(bitrate),
            selection(files@, preferred(bitrate)) == selection(files@, wanted@.skip(i as int)),
        decreases wanted@.len() - i,
    {
        assert(wanted@.skip(i as int).drop_first() =~= wanted@.skip(i + 1));
        if let Some(id) = find_file(files, wanted[i]) {
            return Some((wanted[i], id));
        }
        i = i + 1;
    }
    if files.len() == 0 {
        None
    } else {
        Some(files[0])
    }
}

proof fn lemma_file_of_listed(files: Seq<(AudioFileFormat, FileId)>, format: AudioFileFormat)
    ensures
        file_of(files, format) is Some <==> (exists|i: int|
            0 <= i < files.len() && #[trigger] files[i].0 == format),
        file_of(files, format) is Some ==> files.contains((format, file_of(files, format)->0)),
    decreases files.len(),
{
    if files.len() > 0 {
        let rest = files.drop_first();
        lemma_file_of_listed(rest, format);
        if files.first().0 == format {
            assert(files[0].0 == format);
            assert(files[0] == (format, file_of(files, format)->0));
        } else {
            assert forall|i: int| 0 <= i < files.len() && files[i].0 == format implies exists|j: int|
                0 <= j < rest.len() && #[trigger] rest[j].0 == format by {
                assert(rest[i - 1].0 == format);
            }
            if file_of(rest, format) is Some {
                let j = choose|j: int| 0 <= j < rest.len() && #[trigger] rest[j].0 == format;
                assert(files[j + 1].0 == format);
                let k = choose|k: int|
                    0 <= k < rest.len() && rest[k] == (format, file_of(rest, format)->0);
                assert(files[k + 1] == (format, file_of(rest, format)->0));
            }
        }
    }
}

/// Some file is picked exactly when there is one, and the pick is one of those listed.
pub proof fn law_selection_listed(
    files: Seq<(AudioFileFormat, FileId)>,
    wanted: Seq<AudioFileFormat>,
)
    ensures
        selection(files, wanted) is Some <==> files.len() > 0,
        selection(files, wanted) is Some ==> files.contains(selection(files, wanted)->0),
    decreases wanted.len(),
{
    if wanted.len() == 0 {
        if files.len() > 0 {
            assert(files[0] == files.first());
        }
    } else {
        lemma_file_of_listed(files, wanted.first());
        law_selection_listed(files, wanted.drop_first());
    }
}

/// Where a wanted format is listed, the pick has a wanted format, and no format wanted more is
/// listed.
pub proof fn law_selection_preferred(
    files: Seq<(AudioFileFormat, FileId)>,
    wanted: Seq<AudioFileFormat>,
    k: int,
)
    requires
        0 <= k < wanted.len(),
        exists|i: int| 0 <= i < files.len() && #[trigger] files[i].0 == wanted[k],
    ensures
        exists|j: int|
            0 <= j <= k && (selection(files, wanted)->0).0 == #[trigger] wanted[j] && forall|
                h: int,
                i: int,
            |
                0 <= h < j && 0 <= i < files.len() ==> #[trigger] files[i].0
                    != #[trigger] wanted[h],
    decreases wanted.len(),
{
    lemma_file_of_listed(files, wanted.first());
    if file_of(files, wanted.first()) is Some {
        assert((selection(files, wanted)->0).0 == wanted[0]);
    } else {
        assert(k > 0);
        let rest = wanted.drop_first();
        assert(rest[k - 1] == wanted[k]);
        law_selection_preferred(files, rest, k - 1);
        let j = choose|j: int|
            0 <= j <= k - 1 && (selection(files, rest)->0).0 == #[trigger] rest[j] && forall|
                h: int,
                i: int,
            |
                0 <= h < j && 0 <= i < files.len() ==> #[trigger] files[i].0 != #[trigger] rest[h];
        assert(wanted[j + 1] == rest[j]);
        assert forall|h: int, i: int|
            0 <= h < j + 1 && 0 <= i < files.len() implies #[trigger] files[i].0
            != #[trigger] wanted[h] by {
            if h > 0 {
                assert(rest[h - 1] == wanted[h]);
            }
        }
    }
}

proof fn lemma_file_of_unordered(
    files: Seq<(AudioFileFormat, FileId)>,
    others: Seq<(AudioFileFormat, FileId)>,
    format: AudioFileFormat,
)
    requires
        each_format_once(files),
        each_format_once(others),
        same_files(files, others),
    ensures
        file_of(files, format) == file_of(others, format),
{
    lemma_file_of_listed(files, format);
    lemma_file_of_listed(others, format);
    if file_of(files, format) is Some {
        let file = (format, file_of(files, format)->0);
        assert(others.contains(file));
        let i = choose|i: int| 0 <= i < others.len() && others[i] == file;
        assert(others[i].0 == format);
        let other = (format, file_of(others, format)->0);
        let j = choose|j: int| 0 <= j < others.len() && others[j] == other;
        assert(i == j) by {
            if i < j {
                assert(others[i].0 != others[j].0);
            } else if j < i {
                assert(others[j].0 != others[i].0);
            }
        }
    } else if file_of(others, format) is Some {
        let other = (format, file_of(others, format)->0);
        assert(files.contains(other));
        let i = choose|i: int| 0 <= i < files.len() && files[i] == other;
        assert(files[i].0 == format);
    }
}

/// Where each format is listed once at most and a wanted one is listed, the pick does not depend on
/// the order of the list.
pub proof fn law_selection_unordered(
    files: Seq<(AudioFileFormat, FileId)>,
    others: Seq<(AudioFileFormat, FileId)>,
    wanted: Seq<AudioFileFormat>,
    k: int,
)
    requires
        each_format_once(files),
        each_format_once(others),
        same_files(files, others),
        0 <= k < wanted.len(),
        exists|i: int| 0 <= i < files.len() && (#[trigger] files[i]).0 == wanted[k],
    ensures
        selection(files, wanted) == selection(others, wanted),
    decreases wanted.len(),
{
    lemma_file_of_unordered(files, others, wanted.first());
    lemma_file_of_listed(files, wanted.first());
    if file_of(files, wanted.first()) is None {
        assert(k > 0);
        assert(wanted.drop_first()[k - 1] == wanted[k]);
        law_selection_unordered(files, others, wanted.drop_first(), k - 1);
    }
}

/// The bitrates at which a track can be streamed.
#[derive(Clone, Copy, Debug, PartialEq, Eq, Structural)]
pub enum Bitrate {
    Bitrate96,
    Bitrate160,
    Bitrate320,
}

/// The bitrate for a request: the best one unless one of the lower two is asked for.
pub open spec fn bitrate_for(requested: Option<u32>) -> Bitrate {
    if requested == Some(96u32) {
        Bitrate::Bitrate96
    } else if requested == Some(160u32) {
        Bitrate::Bitrate160
    } else {
        Bitrate::Bitrate320
    }
}

/// The bitrate for a request: the best one unless one of the lower two is asked for.
pub fn stream_bitrate(requested: Option<u32>) -> (bitrate: Bitrate)
    ensures
        bitrate == bitrate_for(requested),
{
    match requested {
        Some(96) => Bitrate::Bitrate96,
        Some(160) => Bitrate::Bitrate160,
        _ => Bitrate::Bitrate320,
    }
}

/// A file of the given format is listed.
pub open spec fn listed(files: Seq<(AudioFileFormat, FileId)>, format: AudioFileFormat) -> bool {
    exists|i: int| 0 <= i < files.len() && (#[trigger] files[i]).0 == format
}

/// What is downloaded for a bitrate. For 96 it is the Ogg Vorbis file of that bitrate, else the MP3
/// file; for 160 likewise; for any other bitrate, or none, the Ogg Vorbis file of 320, else the MP3
/// file of 320, else that of 256. Where none of those is listed, it is the first file of all.
pub proof fn law_download_choice(files: Seq<(AudioFileFormat, FileId)>, bitrate: Option<u32>)
    ensures
        ({
            let pick = selection(files, preferred(bitrate));
            let format = (pick->0).0;
            let best = bitrate != Some(96u32) && bitrate != Some(160u32);
            &&& pick is Some <==> files.len() > 0
            &&& bitrate == Some(96u32) && listed(files, AudioFileFormat::OggVorbis96) ==> format
                == AudioFileFormat::OggVorbis96
            &&& bitrate == Some(96u32) && !listed(files, AudioFileFormat::OggVorbis96) && listed(
                files,
                AudioFileFormat::Mp3At96,
            ) ==> format == AudioFileFormat::Mp3At96
            &&& bitrate == Some(96u32) && !listed(files, AudioFileFormat::OggVorbis96) && !listed(
                files,
                AudioFileFormat::Mp3At96,
            ) && files.len() > 0 ==> pick->0 == files[0]
            &&& bitrate == Some(160u32) && listed(files, AudioFileFormat::OggVorbis160) ==> format
                == AudioFileFormat::OggVorbis160
            &&& bitrate == Some(160u32) && !listed(files, AudioFileFormat::OggVorbis160) && listed(
                files,
                AudioFileFormat::Mp3At160,
            ) ==> format == AudioFileFormat::Mp3At160
            &&& bitrate == Some(160u32) && !listed(files, AudioFileFormat::OggVorbis160) && !listed(
                files,
                AudioFileFormat::Mp3At160,
            ) && files.len() > 0 ==> pick->0 == files[0]
            &&& best && listed(files, AudioFileFormat::OggVorbis320) ==> format
                == AudioFileFormat::OggVorbis320
            &&& best && !listed(files, AudioFileFormat::OggVorbis320) && listed(
                files,
                AudioFileFormat::Mp3At320,
            ) ==> format == AudioFileFormat::Mp3At320
            &&& best && !listed(files, AudioFileFormat::OggVorbis320) && !listed(
                files,
                AudioFileFormat::Mp3At320,
            ) && listed(files, AudioFileFormat::Mp3At256) ==> format == AudioFileFormat::Mp3At256
            &&& best && !listed(files, AudioFileFormat::OggVorbis320) && !listed(
                files,
                AudioFileFormat::Mp3At320,
            ) && !listed(files, AudioFileFormat::Mp3At256) && files.len() > 0 ==> pick->0
                == files[0]
        }),
{
    let w = preferred(bitrate);
    reveal_with_fuel(selection, 4);
    lemma_file_of_listed(files, w[0]);
    lemma_file_of_listed(files, w[1]);
    assert(w.drop_first().first() == w[1]);
    if w.len() == 3 {
        lemma_file_of_listed(files, w[2]);
        assert(w.drop_first().drop_first().first() == w[2]);
    }
    law_selection_listed(files, w);
}

/// The file that is downloaded is the first one listed of its format.
pub proof fn law_first_of_its_format(
    files: Seq<(AudioFileFormat, FileId)>,
    wanted: Seq<AudioFileFormat>,
)
    requires
        files.len() > 0,
    ensures
        exists|i: int|
            0 <= i < files.len() && #[trigger] files[i] == selection(files, wanted)->0 && forall|
                j: int,
            |
                0 <= j < i ==> (#[trigger] files[j]).0 != files[i].0,
    decreases wanted.len(),
{
    if wanted.len() == 0 {
        assert(files[0] == selection(files, wanted)->0);
    } else if file_of(files, wanted.first()) is Some {
        let i = lemma_file_of_first(files, wanted.first());
        assert(files[i] == selection(files, wanted)->0);
    } else {
        law_first_of_its_format(files, wanted.drop_first());
    }
}

proof fn lemma_file_of_first(
    files: Seq<(AudioFileFormat, FileId)>,
    format: AudioFileFormat,
) -> (i: int)
    requires
        file_of(files, format) is Some,
    ensures
        0 <= i < files.len(),
        files[i] == (format, file_of(files, format)->0),
        forall|j: int| 0 <= j < i ==> (#[trigger] files[j]).0 != format,
    decreases files.len(),
{
    if files.first().0 == format {
        0
    } else {
        let rest = files.drop_first();
        let i = lemma_file_of_first(rest, format);
        assert forall|j: int| 0 <= j < i + 1 implies (#[trigger] files[j]).0 != format by {
            if j > 0 {
                assert(rest[j - 1] == files[j]);
            }
        }
        i + 1
    }
}

/// A stream plays at the bitrate asked for where that is 96 or 160, else at 320.
pub proof fn law_stream_bitrate(requested: u32)
    ensures
        requested == 96 ==> bitrate_for(Some(requested)) == Bitrate::Bitrate96,
        requested == 160 ==> bitrate_for(Some(requested)) == Bitrate::Bitrate160,
        requested != 96 && requested != 160 ==> bitrate_for(Some(requested))
            == Bitrate::Bitrate320,
        bitrate_for(None) == Bitrate::Bitrate320,
{
}

/// The rate of a format whose bitrate is known is an eighth of that bitrate, in kibibytes.
pub proof fn law_rates(format: AudioFileFormat)
    ensures
        ({
            let kbit: int = match format {
                AudioFileFormat::OggVorbis96 => 96,
                AudioFileFormat::OggVorbis160 => 160,
                AudioFileFormat::OggVorbis320 => 320,
                AudioFileFormat::Mp3At256 => 256,
                AudioFileFormat::Mp3At320 => 320,
                AudioFileFormat::Mp3At160 => 160,
                AudioFileFormat::Mp3At96 => 96,
                AudioFileFormat::Mp3At160Enc => 160,
                AudioFileFormat::Aac24 => 24,
                AudioFileFormat::Aac48 => 48,
                AudioFileFormat::Aac160 => 160,
                AudioFileFormat::Aac320 => 320,
                AudioFileFormat::Mp4At128 => 128,
                AudioFileFormat::Other5 => 320,
                AudioFileFormat::Flac => 896,
                AudioFileFormat::Flac24Bit => 24,
                AudioFileFormat::XheAac12 => 12,
                AudioFileFormat::XheAac16 => 16,
                AudioFileFormat::XheAac24 => 24,
            };
            half_kib_per_second(format) * 512 == kbit * 128
        }),
{
}

} // verus!
