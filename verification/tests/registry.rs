use dusty::daemon::heartbeat_due;
use dusty::NotificationDaemon;

fn notify_simple(d: &mut NotificationDaemon, replaces: u32, summary: &str) -> u32 {
    d.notify(
        "app".to_string(),
        replaces,
        "icon".to_string(),
        summary.to_string(),
        "body".to_string(),
        Vec::new(),
        Vec::new(),
        -1,
    )
}

#[test]
fn stats_of_fresh_registry() {
    let d = NotificationDaemon::new();
    assert_eq!(d.get_stats(), (0, 1));
}

#[test]
fn allocation_starts_at_one_and_increases() {
    let mut d = NotificationDaemon::new();
    assert_eq!(d.next_id(), 1);
    assert_eq!(d.next_id(), 2);
    assert_eq!(d.next_id(), 3);
    assert_eq!(d.get_stats(), (0, 4));
}

#[test]
fn allocation_never_yields_zero() {
    let mut d = NotificationDaemon::new();
    for _ in 0..100 {
        assert_ne!(d.next_id(), 0);
    }
}

#[test]
fn close_tracked_removes_and_second_close_is_noop() {
    let mut d = NotificationDaemon::new();
    let id = notify_simple(&mut d, 0, "hello");
    assert_eq!(d.get_stats().0, 1);
    let closed = d.close_notification(id);
    assert_eq!(closed, Some("hello".to_string()));
    assert_eq!(d.get_stats().0, 0);
    let closed_again = d.close_notification(id);
    assert_eq!(closed_again, None);
    assert_eq!(d.get_stats().0, 0);
}

#[test]
fn close_untracked_is_benign() {
    let mut d = NotificationDaemon::new();
    let closed = d.close_notification(5);
    assert_eq!(closed, None);
    assert_eq!(d.get_stats(), (0, 1));
}

#[test]
fn heartbeat_every_tenth_tick() {
    assert!(heartbeat_due(10));
    assert!(heartbeat_due(20));
    assert!(heartbeat_due(0));
    assert!(!heartbeat_due(1));
    assert!(!heartbeat_due(9));
    assert!(!heartbeat_due(15));
}
