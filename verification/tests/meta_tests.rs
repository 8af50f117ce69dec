use lofty::tag::TagExt;
use playback_core::gain::{ReplayGainMode, ReplayGainState};
use playback_core::meta::{album_art_data_url, get_album_art_base64, path_fields, read_metadata};

fn small_wav() -> Vec<u8> {
    // one second of silence, 8 kHz mono, 16-bit PCM
    let frames: usize = 8000;
    let data_len = (frames * 2) as u32;
    let mut b: Vec<u8> = Vec::new();
    b.extend_from_slice(b"RIFF");
    b.extend_from_slice(&(36 + data_len).to_le_bytes());
    b.extend_from_slice(b"WAVE");
    b.extend_from_slice(b"fmt ");
    b.extend_from_slice(&16u32.to_le_bytes());
    b.extend_from_slice(&1u16.to_le_bytes());
    b.extend_from_slice(&1u16.to_le_bytes());
    b.extend_from_slice(&8000u32.to_le_bytes());
    b.extend_from_slice(&16000u32.to_le_bytes());
    b.extend_from_slice(&2u16.to_le_bytes());
    b.extend_from_slice(&16u16.to_le_bytes());
    b.extend_from_slice(b"data");
    b.extend_from_slice(&data_len.to_le_bytes());
    for _ in 0..frames {
        b.extend_from_slice(&0i16.to_le_bytes());
    }
    b
}

#[test]
fn path_fields_split_name_and_format() {
    let (name, format) = path_fields(&"/music/Artist - Song.flac".to_string());
    assert_eq!(name, "Artist - Song.flac");
    assert_eq!(format, "FLAC");

    let (name, format) = path_fields(&"song.mp3".to_string());
    assert_eq!(name, "song.mp3");
    assert_eq!(format, "MP3");

    let (name, format) = path_fields(&"/tmp/noextension".to_string());
    assert_eq!(name, "noextension");
    assert_eq!(format, "UNKNOWN");

    // hidden files have no extension
    let (name, format) = path_fields(&"/home/user/.config".to_string());
    assert_eq!(name, ".config");
    assert_eq!(format, "UNKNOWN");
}

#[test]
fn album_art_urls_carry_mime_and_payload() {
    let url = album_art_data_url(None, &vec![1u8, 2, 3]);
    assert_eq!(url, "data:image/jpeg;base64,AQID");

    let url = album_art_data_url(Some("image/png".to_string()), &vec![]);
    assert_eq!(url, "data:image/png;base64,");

    // padding: base64 of one byte is four characters
    let url = album_art_data_url(None, &vec![0xFFu8]);
    assert_eq!(url, "data:image/jpeg;base64,/w==");
}

#[test]
fn read_metadata_reports_stream_properties() {
    let m = read_metadata(small_wav(), "/library/quiet.wav".to_string()).unwrap();
    assert_eq!(m.file_name, "quiet.wav");
    assert_eq!(m.format, "WAV");
    assert_eq!(m.file_path, "/library/quiet.wav");
    assert_eq!(m.sample_rate, Some(8000));
    assert_eq!(m.channels, Some(1));
    assert_eq!(m.duration_ms, 1000);
    assert_eq!(m.title, None);
    assert_eq!(m.artist, None);
    assert!(!m.has_album_art);
}

#[test]
fn album_art_of_plain_wav_is_none() {
    let r = get_album_art_base64(small_wav()).unwrap();
    assert!(r.is_none());
}

#[test]
fn read_metadata_rejects_garbage() {
    let garbage: Vec<u8> = vec![7u8; 32];
    assert!(read_metadata(garbage, "x.bin".to_string()).is_err());
}

#[test]
fn replaygain_tags_of_untagged_file_are_all_none() {
    let info = playback_core::meta::read_replaygain_tags(&small_wav());
    assert_eq!(info.track_gain_db, None);
    assert_eq!(info.track_peak, None);
    assert_eq!(info.album_gain_db, None);
    assert_eq!(info.album_peak, None);
}

#[test]
fn replaygain_tags_of_unreadable_bytes_are_all_none() {
    let garbage: Vec<u8> = vec![9u8; 24];
    let info = playback_core::meta::read_replaygain_tags(&garbage);
    assert_eq!(info.track_gain_db, None);
    assert_eq!(info.album_gain_db, None);
}

/// Write real replay-gain tags into a WAV in memory, through lofty itself.
fn tagged_wav(items: &[(lofty::tag::ItemKey, &str)]) -> Vec<u8> {
    let mut tag = lofty::tag::Tag::new(lofty::tag::TagType::Id3v2);
    for (key, value) in items {
        assert!(tag.insert_text(key.clone(), value.to_string()));
    }
    let mut cursor = std::io::Cursor::new(small_wav());
    tag.save_to(&mut cursor, lofty::config::WriteOptions::default())
        .expect("tag write failed");
    cursor.into_inner()
}

#[test]
fn replaygain_tags_are_read_and_parsed() {
    let bytes = tagged_wav(&[
        (lofty::tag::ItemKey::ReplayGainTrackGain, "-7.5 dB"),
        (lofty::tag::ItemKey::ReplayGainTrackPeak, "0.988"),
        (lofty::tag::ItemKey::ReplayGainAlbumGain, "+1 dB"),
    ]);
    let info = playback_core::meta::read_replaygain_tags(&bytes);
    assert_eq!(info.track_gain_db, Some(-7500));
    assert_eq!(info.track_peak, Some(988000));
    assert_eq!(info.album_gain_db, Some(1000));
    assert_eq!(info.album_peak, None);
}

#[test]
fn load_from_file_installs_the_tags() {
    let bytes = tagged_wav(&[(lofty::tag::ItemKey::ReplayGainTrackGain, "-7.5 dB")]);
    let mut rg = ReplayGainState::new();
    rg.set_mode(ReplayGainMode::Track);
    let req = rg.load_from_file(&bytes).expect("a gain computation is owed");
    assert_eq!(req.gain_db, -7500);
}
