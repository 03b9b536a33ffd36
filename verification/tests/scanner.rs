use musicplayer::scanner::{
    artist_label, entry_attribs, folder_parent_id, plan_entry, title_label, LibraryScan, Metadata, NewFile,
    ScanStep, ALBUM_ART, ALBUM_FOLDER, SONG_FILE,
};

#[test]
fn attribs_of_directories_ignore_the_name() {
    assert_eq!(entry_attribs("Album", true), Some(16));
    assert_eq!(entry_attribs("Live.mp3", true), Some(ALBUM_FOLDER));
    assert_eq!(entry_attribs("", true), Some(16));
}

#[test]
fn attribs_of_songs() {
    assert_eq!(entry_attribs("01 Intro.mp3", false), Some(32));
    assert_eq!(entry_attribs("track.flac", false), Some(SONG_FILE));
    assert_eq!(entry_attribs(".mp3", false), Some(32));
}

#[test]
fn attribs_of_album_art() {
    assert_eq!(entry_attribs("cover.jpg", false), Some(38));
    assert_eq!(entry_attribs("back.png", false), Some(ALBUM_ART));
}

#[test]
fn attribs_of_unknown_files() {
    assert_eq!(entry_attribs("notes.txt", false), None);
    assert_eq!(entry_attribs("mp3", false), None);
    assert_eq!(entry_attribs("song.MP3", false), None);
    assert_eq!(entry_attribs("song.mp3.bak", false), None);
    assert_eq!(entry_attribs("", false), None);
    assert_eq!(entry_attribs("cover.jpeg", false), None);
}

#[test]
fn attribs_of_non_ascii_names() {
    assert_eq!(entry_attribs("Björk – Jóga.flac", false), Some(32));
    assert_eq!(entry_attribs("日本.png", false), Some(38));
}

fn check_row(row: &NewFile, parent: Option<i32>, name: &str, attribs: usize, path: &str) {
    assert_eq!(row.parent_id, parent);
    assert_eq!(row.name, name);
    assert_eq!(row.attribs, attribs);
    assert_eq!(row.path, path);
    assert!(row.md.is_none());
}

#[test]
fn plan_of_a_folder() {
    match plan_entry(Some(0), "Album".to_string(), true, "Music/Album".to_string()) {
        ScanStep::Folder(row) => check_row(&row, Some(0), "Album", 16, "Music/Album"),
        other => panic!("unexpected step {:?}", other),
    }
}

#[test]
fn plan_of_a_song() {
    match plan_entry(Some(3), "a.mp3".to_string(), false, "Music/Album/a.mp3".to_string()) {
        ScanStep::Song(row) => check_row(&row, Some(3), "a.mp3", 32, "Music/Album/a.mp3"),
        other => panic!("unexpected step {:?}", other),
    }
}

#[test]
fn plan_of_album_art() {
    match plan_entry(None, "c.jpg".to_string(), false, "c.jpg".to_string()) {
        ScanStep::Art(row) => check_row(&row, None, "c.jpg", 38, "c.jpg"),
        other => panic!("unexpected step {:?}", other),
    }
}

#[test]
fn plan_of_an_unknown_file() {
    assert!(matches!(
        plan_entry(Some(1), "readme".to_string(), false, "Music/readme".to_string()),
        ScanStep::Skip
    ));
}

#[test]
fn folder_parent_id_narrows_like_a_cast() {
    assert_eq!(folder_parent_id(5), Some(5));
    assert_eq!(folder_parent_id((1i64 << 32) + 7), Some(7));
    assert_eq!(folder_parent_id(0x8000_0000), Some(i32::MIN));
    assert_eq!(folder_parent_id(-1), Some(-1));
}

fn tag(year: Option<i32>) -> Metadata {
    Metadata::from_tag(
        Some("Intro".to_string()),
        Some("First".to_string()),
        Some("Band".to_string()),
        Some("Rock".to_string()),
        year,
    )
}

#[test]
fn metadata_from_a_full_tag() {
    let md = tag(Some(1999));
    assert_eq!(md.title, "Intro");
    assert_eq!(md.album, "First");
    assert_eq!(md.artist, "Band");
    assert_eq!(md.genre, "Rock");
    assert_eq!(md.year, "1999");
}

#[test]
fn metadata_without_year() {
    assert_eq!(tag(None).year, "Unknown year");
}

#[test]
fn metadata_year_edge_values() {
    assert_eq!(tag(Some(0)).year, "0");
    assert_eq!(tag(Some(-42)).year, "-42");
    assert_eq!(tag(Some(i32::MAX)).year, "2147483647");
    assert_eq!(tag(Some(i32::MIN)).year, "-2147483648");
    for y in [1, 9, 10, 99, 100, 2024, -1, -10] {
        assert_eq!(tag(Some(y)).year, y.to_string());
    }
}

#[test]
fn with_metadata_attaches_the_tag() {
    let row = match plan_entry(Some(2), "b.flac".to_string(), false, "x/b.flac".to_string()) {
        ScanStep::Song(row) => row,
        other => panic!("unexpected step {:?}", other),
    };
    let row = row.with_metadata(tag(Some(2001)));
    assert_eq!(row.parent_id, Some(2));
    assert_eq!(row.name, "b.flac");
    assert_eq!(row.attribs, 32);
    assert_eq!(row.path, "x/b.flac");
    assert_eq!(row.md.unwrap().year, "2001");
}

#[test]
fn labels_fall_back_to_unknown() {
    assert_eq!(artist_label(Some("Band".to_string())), "Band");
    assert_eq!(artist_label(None), "Unknown Artist");
    assert_eq!(title_label(Some("Intro".to_string())), "Intro");
    assert_eq!(title_label(None), "Unknown Title");
    assert_eq!(artist_label(Some(String::new())), "");
}

#[test]
fn library_scan_files_entries_under_their_folder() {
    let mut scan = LibraryScan::new(Some(0));
    assert_eq!(scan.current_parent(), Some(0));
    assert_eq!(scan.depth(), 0);
    match scan.plan("Album".to_string(), true, "Music/Album".to_string()) {
        ScanStep::Folder(row) => assert_eq!(row.parent_id, Some(0)),
        other => panic!("unexpected step {:?}", other),
    }
    scan.enter_folder(7);
    assert_eq!(scan.depth(), 1);
    assert_eq!(scan.current_parent(), Some(7));
    match scan.plan("a.mp3".to_string(), false, "Music/Album/a.mp3".to_string()) {
        ScanStep::Song(row) => check_row(&row, Some(7), "a.mp3", 32, "Music/Album/a.mp3"),
        other => panic!("unexpected step {:?}", other),
    }
    scan.enter_folder((1i64 << 32) + 9);
    assert_eq!(scan.current_parent(), Some(9));
    scan.leave_folder();
    assert_eq!(scan.current_parent(), Some(7));
    scan.leave_folder();
    assert_eq!(scan.current_parent(), Some(0));
    assert_eq!(scan.depth(), 0);
}

#[test]
fn library_scan_without_root_parent() {
    let scan = LibraryScan::new(None);
    match scan.plan("c.png".to_string(), false, "c.png".to_string()) {
        ScanStep::Art(row) => check_row(&row, None, "c.png", 38, "c.png"),
        other => panic!("unexpected step {:?}", other),
    }
}
