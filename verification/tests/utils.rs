use musicplayer::utils::{readable_names, Util, UtilAction};

#[test]
fn new_util_has_no_files() {
    let u = Util::new();
    assert!(u.files.is_empty());
}

#[test]
fn readable_names_keep_order_and_drop_unreadable() {
    let entries = vec![
        Some("a.mp3".to_string()),
        None,
        Some("b".to_string()),
        None,
        Some("c.flac".to_string()),
    ];
    assert_eq!(readable_names(&entries), vec!["a.mp3", "b", "c.flac"]);
}

#[test]
fn readable_names_edge_cases() {
    assert!(readable_names(&vec![]).is_empty());
    assert!(readable_names(&vec![None, None]).is_empty());
    assert_eq!(readable_names(&vec![Some(String::new())]), vec![""]);
}

#[test]
fn util_action_carries_the_names() {
    let a = UtilAction::FileLibraryScanned(readable_names(&vec![Some("x".to_string())]));
    match a {
        UtilAction::FileLibraryScanned(v) => assert_eq!(v, vec!["x"]),
        UtilAction::ScanFileLibrary => panic!("wrong action"),
    }
}
