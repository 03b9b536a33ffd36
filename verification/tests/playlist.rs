use musicplayer::playlist::{FileAction, FileState};
use musicplayer::message::File;
use musicplayer::scanner::Metadata;

fn md(title: &str) -> Metadata {
    Metadata::from_tag(
        Some(title.to_string()),
        Some("Album".to_string()),
        Some("Artist".to_string()),
        Some("Genre".to_string()),
        Some(2000),
    )
}

#[test]
fn new_file_state_is_empty() {
    let s = FileState::new();
    assert!(s.files.is_empty());
}

#[test]
fn update_answers_each_message() {
    let mut s = FileState::new();
    assert_eq!(s.update(File::Load), FileAction::ReportLoad);
    assert_eq!(s.update(File::Display), FileAction::LoadLibrary);
    assert_eq!(s.update(File::Duration), FileAction::Nothing);
    assert_eq!(s.update(File::Select("a.mp3".to_string())), FileAction::Nothing);
    assert!(s.files.is_empty());
}

#[test]
fn update_leaves_the_list_alone() {
    let mut s = FileState::new();
    s.library_loaded(vec![("a.mp3".to_string(), md("A"))]);
    assert_eq!(s.update(File::Display), FileAction::LoadLibrary);
    assert_eq!(s.files.len(), 1);
    assert_eq!(s.files[0].0, "a.mp3");
}

#[test]
fn library_loaded_replaces_the_list() {
    let mut s = FileState::new();
    s.library_loaded(vec![("a.mp3".to_string(), md("A"))]);
    s.library_loaded(vec![("b.mp3".to_string(), md("B")), ("c.flac".to_string(), md("C"))]);
    assert_eq!(s.files.len(), 2);
    assert_eq!(s.files[0].0, "b.mp3");
    assert_eq!(s.files[1].1.title, "C");
}

#[test]
fn button_entries_are_title_and_path_in_order() {
    let mut s = FileState::new();
    assert!(s.button_entries().is_empty());
    s.library_loaded(vec![
        ("Music/x/1.mp3".to_string(), md("One")),
        ("Music/x/2.mp3".to_string(), md("Two")),
        ("Music/y/3.flac".to_string(), md("One")),
    ]);
    let e = s.button_entries();
    assert_eq!(
        e,
        vec![
            ("One".to_string(), "Music/x/1.mp3".to_string()),
            ("Two".to_string(), "Music/x/2.mp3".to_string()),
            ("One".to_string(), "Music/y/3.flac".to_string()),
        ]
    );
}
