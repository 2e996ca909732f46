use workshop_fetch::bridge::PendingNotification;

#[test]
fn new_notification_waits() {
    let p = PendingNotification::new(7);
    assert_eq!(p.key(), 7);
    assert!(!p.is_fulfilled());
}

#[test]
fn matching_delivery_fires_once() {
    let mut p = PendingNotification::new(7);
    assert!(!p.deliver(3));
    assert!(!p.is_fulfilled());
    assert!(p.deliver(7));
    assert!(p.is_fulfilled());
    assert!(!p.deliver(7));
    assert!(p.is_fulfilled());
}

#[test]
fn unique_match_first() {
    let mut p = PendingNotification::new(42);
    assert_eq!(p.deliver_all(&[42, 1, 2, 3]), Some(0));
    assert!(p.is_fulfilled());
}

#[test]
fn unique_match_middle() {
    let mut p = PendingNotification::new(42);
    assert_eq!(p.deliver_all(&[1, 2, 42, 3, 4]), Some(2));
    assert!(p.is_fulfilled());
}

#[test]
fn unique_match_last() {
    let mut p = PendingNotification::new(42);
    assert_eq!(p.deliver_all(&[1, 2, 3, 42]), Some(3));
    assert!(p.is_fulfilled());
}

#[test]
fn resolves_after_exactly_the_match() {
    let subjects = [5u64, 6, 42, 7, 8];
    let mut p = PendingNotification::new(42);
    for (i, s) in subjects.iter().enumerate() {
        let fired = p.deliver(*s);
        assert_eq!(fired, i == 2);
        assert_eq!(p.is_fulfilled(), i >= 2);
    }
}

#[test]
fn no_match_leaves_it_waiting() {
    let mut p = PendingNotification::new(42);
    assert_eq!(p.deliver_all(&[1, 2, 3]), None);
    assert!(!p.is_fulfilled());
    assert_eq!(p.deliver_all(&[]), None);
}

#[test]
fn fulfilled_notification_ignores_later_runs() {
    let mut p = PendingNotification::new(9);
    assert_eq!(p.deliver_all(&[9]), Some(0));
    assert_eq!(p.deliver_all(&[9, 9]), None);
    assert!(p.is_fulfilled());
}
