use flexrc::ThreadTracker;

#[test]
fn identities_start_at_one_and_follow_each_other() {
    let mut tracker = ThreadTracker::new();
    assert!(tracker.has_free_id());
    assert_eq!(tracker.get_new_id(), 1);
    assert_eq!(tracker.get_new_id(), 2);
    assert_eq!(tracker.get_new_id(), 3);
}

#[test]
fn a_returned_identity_is_not_handed_out_before_the_circle_closes() {
    let mut tracker = ThreadTracker::new();
    let first = tracker.get_new_id();
    let second = tracker.get_new_id();
    tracker.return_id(first);
    let third = tracker.get_new_id();
    assert_eq!((first, second, third), (1, 2, 3));
    tracker.return_id(second);
    tracker.return_id(third);
    tracker.return_id(99);
    assert_eq!(tracker.get_new_id(), 4);
}

#[test]
fn identities_that_are_out_are_distinct() {
    let mut tracker = ThreadTracker::new();
    let mut out = Vec::new();
    for _ in 0..1000 {
        assert!(tracker.has_free_id());
        let id = tracker.get_new_id();
        assert!(id >= 1 && id < usize::MAX >> 1);
        assert!(!out.contains(&id));
        out.push(id);
    }
}
