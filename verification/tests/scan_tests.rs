use playback_core::scan::{is_audio_file, scan_directory, str_le};

#[test]
fn recognises_supported_extensions() {
    for name in [
        "a.flac", "a.mp3", "a.wav", "a.ogg", "a.m4a", "a.aac", "a.wma", "a.alac", "a.ape",
        "a.opus",
    ] {
        assert!(is_audio_file(&name.to_string()), "{}", name);
    }
}

#[test]
fn extension_comparison_is_case_insensitive() {
    assert!(is_audio_file(&"/music/song.FLAC".to_string()));
    assert!(is_audio_file(&"/music/song.Mp3".to_string()));
    assert!(is_audio_file(&"/music/song.OpUs".to_string()));
}

#[test]
fn rejects_other_files() {
    assert!(!is_audio_file(&"notes.txt".to_string()));
    assert!(!is_audio_file(&"archive.tar".to_string()));
    assert!(!is_audio_file(&"noextension".to_string()));
    assert!(!is_audio_file(&"".to_string()));
    // a leading dot marks a hidden file, not an extension
    assert!(!is_audio_file(&"/music/.flac".to_string()));
    // the extension belongs to the file name, not to a directory
    assert!(!is_audio_file(&"/albums.mp3/cover".to_string()));
    // trailing dot: empty extension
    assert!(!is_audio_file(&"song.".to_string()));
}

#[test]
fn scan_filters_and_sorts() {
    let entries: Vec<String> = vec![
        "/m/zz.flac".to_string(),
        "/m/readme.txt".to_string(),
        "/m/aa.mp3".to_string(),
        "/m/mm.OGG".to_string(),
        "/m/cover.jpg".to_string(),
    ];
    let r = scan_directory(&entries);
    assert_eq!(
        r,
        vec!["/m/aa.mp3".to_string(), "/m/mm.OGG".to_string(), "/m/zz.flac".to_string()]
    );
}

#[test]
fn scan_keeps_duplicates_and_sorts_them_together() {
    let entries: Vec<String> = vec![
        "b.wav".to_string(),
        "a.wav".to_string(),
        "b.wav".to_string(),
    ];
    let r = scan_directory(&entries);
    assert_eq!(r, vec!["a.wav".to_string(), "b.wav".to_string(), "b.wav".to_string()]);
}

#[test]
fn scan_of_empty_list_is_empty() {
    let entries: Vec<String> = Vec::new();
    assert!(scan_directory(&entries).is_empty());
}

#[test]
fn string_order_matches_std() {
    let pairs = [
        ("a", "b"),
        ("abc", "abd"),
        ("ab", "abc"),
        ("", "a"),
        ("same", "same"),
        ("Z", "a"),
        ("/m/aa.mp3", "/m/zz.flac"),
    ];
    for (a, b) in pairs {
        let al = a.to_string();
        let bl = b.to_string();
        assert_eq!(str_le(&al, &bl), a <= b, "{} vs {}", a, b);
        assert_eq!(str_le(&bl, &al), b <= a, "{} vs {}", b, a);
    }
}
