use musicplayer::message::File;
use musicplayer::files::FileState;

#[test]
fn new_file_list_holds_two_files() {
    let s = FileState::new();
    assert_eq!(s.files, vec!["file1.mp3".to_string(), "file2.mp3".to_string()]);
}

#[test]
fn file_list_update_changes_nothing() {
    let mut s = FileState::new();
    s.update(File::Load);
    s.update(File::Display);
    s.update(File::Duration);
    s.update(File::Select("file1.mp3".to_string()));
    assert_eq!(s.files, vec!["file1.mp3".to_string(), "file2.mp3".to_string()]);
}
