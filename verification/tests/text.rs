use musicplayer::text::{ends_with, i32_to_text};

#[test]
fn ends_with_matches_str_ends_with() {
    let cases = [
        ("song.mp3", ".mp3"),
        ("song.mp3", "mp3"),
        ("song.mp3", ""),
        ("", ""),
        ("", "a"),
        ("mp3", ".mp3"),
        ("a.flac", ".mp3"),
        ("ünïcödé.flac", ".flac"),
        ("ünïcödé", "é"),
        ("abc", "abc"),
        ("abc", "xabc"),
    ];
    for (s, suffix) in cases {
        assert_eq!(ends_with(s, suffix), s.ends_with(suffix), "{:?} {:?}", s, suffix);
    }
}

#[test]
fn decimal_text_of_i32() {
    for n in [0, 7, 10, 42, 100, 1999, 65536, -1, -9, -10, -12345, i32::MAX, i32::MIN] {
        assert_eq!(i32_to_text(n), n.to_string());
    }
}
