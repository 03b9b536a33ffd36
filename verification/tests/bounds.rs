use musicplayer::bounds::{ContainerStep, ScrollTracker};

#[test]
fn target_at_the_root() {
    let mut t = ScrollTracker::new();
    assert_eq!(t.container(false, true), ContainerStep::Target { within_scrollable: false });
    assert_eq!(t.depth(), 0);
}

#[test]
fn known_bounds_stop_the_search() {
    let mut t = ScrollTracker::new();
    assert_eq!(t.container(true, true), ContainerStep::Stop);
    assert_eq!(t.container(true, false), ContainerStep::Stop);
    assert_eq!(t.depth(), 0);
}

#[test]
fn target_inside_a_scrollable() {
    let mut t = ScrollTracker::new();
    assert_eq!(t.container(false, false), ContainerStep::Descend);
    assert_eq!(t.depth(), 1);
    assert!(!t.scrollable());
    assert_eq!(t.container(false, false), ContainerStep::Descend);
    assert!(t.scrollable());
    assert_eq!(t.container(false, true), ContainerStep::Target { within_scrollable: true });
}

#[test]
fn scrollables_are_dropped_on_the_way_back() {
    let mut t = ScrollTracker::new();
    assert!(!t.scrollable());
    assert_eq!(t.container(false, false), ContainerStep::Descend);
    assert_eq!(t.container(false, false), ContainerStep::Descend);
    assert_eq!(t.depth(), 2);
    assert!(!t.leave());
    assert_eq!(t.depth(), 1);
    assert!(t.leave());
    assert_eq!(t.depth(), 0);
    assert_eq!(t.container(false, true), ContainerStep::Target { within_scrollable: false });
}

#[test]
fn nested_scrollables() {
    let mut t = ScrollTracker::new();
    assert!(!t.scrollable());
    assert_eq!(t.container(false, false), ContainerStep::Descend);
    assert!(t.scrollable());
    assert_eq!(t.container(false, false), ContainerStep::Descend);
    assert!(t.leave());
    assert_eq!(t.container(false, true), ContainerStep::Target { within_scrollable: true });
    assert!(t.leave());
    assert_eq!(t.container(false, true), ContainerStep::Target { within_scrollable: false });
}
