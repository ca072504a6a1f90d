use node_librespot::formats::{
    select_format, stream_bitrate, stream_data_rate, AudioFileFormat, AudioFiles, Bitrate,
};

#[test]
fn data_rates() {
    let rates = [
        (AudioFileFormat::OggVorbis96, 12288),
        (AudioFileFormat::OggVorbis160, 20480),
        (AudioFileFormat::OggVorbis320, 40960),
        (AudioFileFormat::Mp3At256, 32768),
        (AudioFileFormat::Mp3At320, 40960),
        (AudioFileFormat::Mp3At160, 20480),
        (AudioFileFormat::Mp3At96, 12288),
        (AudioFileFormat::Mp3At160Enc, 20480),
        (AudioFileFormat::Aac24, 3072),
        (AudioFileFormat::Aac48, 6144),
        (AudioFileFormat::Aac160, 20480),
        (AudioFileFormat::Aac320, 40960),
        (AudioFileFormat::Mp4At128, 16384),
        (AudioFileFormat::Other5, 40960),
        (AudioFileFormat::Flac, 114688),
        (AudioFileFormat::XheAac12, 1536),
        (AudioFileFormat::XheAac16, 2048),
        (AudioFileFormat::XheAac24, 3072),
        (AudioFileFormat::Flac24Bit, 3072),
    ];
    for (format, rate) in rates {
        assert_eq!(stream_data_rate(format), Some(rate));
    }
}

fn files(formats: &[AudioFileFormat]) -> AudioFiles {
    formats.iter().enumerate().map(|(i, f)| (*f, [i as u8; 20])).collect()
}

#[test]
fn preferred_formats_are_picked_in_order() {
    let all = files(&[
        AudioFileFormat::Aac24,
        AudioFileFormat::Mp3At96,
        AudioFileFormat::Mp3At160,
        AudioFileFormat::Mp3At256,
        AudioFileFormat::Mp3At320,
        AudioFileFormat::OggVorbis96,
        AudioFileFormat::OggVorbis160,
        AudioFileFormat::OggVorbis320,
    ]);
    assert_eq!(select_format(&all, Some(96)), Some((AudioFileFormat::OggVorbis96, [5; 20])));
    assert_eq!(select_format(&all, Some(160)), Some((AudioFileFormat::OggVorbis160, [6; 20])));
    assert_eq!(select_format(&all, Some(320)), Some((AudioFileFormat::OggVorbis320, [7; 20])));
    assert_eq!(select_format(&all, None), Some((AudioFileFormat::OggVorbis320, [7; 20])));
    assert_eq!(select_format(&all, Some(1)), Some((AudioFileFormat::OggVorbis320, [7; 20])));

    let mp3 = files(&[
        AudioFileFormat::Mp3At256,
        AudioFileFormat::Mp3At320,
        AudioFileFormat::Mp3At160,
        AudioFileFormat::Mp3At96,
    ]);
    assert_eq!(select_format(&mp3, Some(96)), Some((AudioFileFormat::Mp3At96, [3; 20])));
    assert_eq!(select_format(&mp3, Some(160)), Some((AudioFileFormat::Mp3At160, [2; 20])));
    assert_eq!(select_format(&mp3, None), Some((AudioFileFormat::Mp3At320, [1; 20])));
    let one = files(&[AudioFileFormat::Aac48, AudioFileFormat::Mp3At256]);
    assert_eq!(select_format(&one, None), Some((AudioFileFormat::Mp3At256, [1; 20])));
}

#[test]
fn any_file_is_better_than_none() {
    let odd = files(&[AudioFileFormat::Flac, AudioFileFormat::OggVorbis96]);
    assert_eq!(select_format(&odd, Some(160)), Some((AudioFileFormat::Flac, [0; 20])));
    assert_eq!(select_format(&odd, None), Some((AudioFileFormat::Flac, [0; 20])));
    assert_eq!(select_format(&files(&[]), None), None);
    assert_eq!(select_format(&files(&[]), Some(96)), None);
}

#[test]
fn bitrates() {
    assert_eq!(stream_bitrate(Some(96)), Bitrate::Bitrate96);
    assert_eq!(stream_bitrate(Some(160)), Bitrate::Bitrate160);
    assert_eq!(stream_bitrate(Some(320)), Bitrate::Bitrate320);
    assert_eq!(stream_bitrate(Some(97)), Bitrate::Bitrate320);
    assert_eq!(stream_bitrate(None), Bitrate::Bitrate320);
}

#[test]
fn the_pick_does_not_depend_on_the_order() {
    let mut listed = files(&[
        AudioFileFormat::Mp3At96,
        AudioFileFormat::OggVorbis320,
        AudioFileFormat::Aac24,
        AudioFileFormat::Mp3At256,
    ]);
    for bitrate in [Some(96), None] {
        let pick = select_format(&listed, bitrate);
        for _ in 0..4 {
            listed.rotate_left(1);
            assert_eq!(select_format(&listed, bitrate), pick);
        }
    }
}
