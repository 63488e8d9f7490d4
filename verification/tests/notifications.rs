use koompi_shell::notifications::{Notification, NotificationDaemon, OSD, OSDKind, Urgency};

#[test]
fn test_notification_creation() {
    let n = Notification::new(1, "Test App", "Test Title", "Test Body");
    assert_eq!(n.id, 1);
    assert_eq!(n.app_name, "Test App");
    assert!(!n.is_expired());
}

#[test]
fn test_daemon_notify() {
    let mut daemon = NotificationDaemon::new();
    let id1 = daemon.notify("App1", "Title1", "Body1");
    let id2 = daemon.notify("App2", "Title2", "Body2");

    assert_eq!(id1, 1);
    assert_eq!(id2, 2);
    assert_eq!(daemon.count(), 2);
}

#[test]
fn test_daemon_dismiss() {
    let mut daemon = NotificationDaemon::new();
    let id = daemon.notify("App", "Title", "Body");
    assert_eq!(daemon.count(), 1);

    daemon.dismiss(id);
    assert_eq!(daemon.count(), 0);
    assert_eq!(daemon.history().len(), 1);
}

#[test]
fn six_notifications_overflow_into_history() {
    let mut daemon = NotificationDaemon::new();
    for i in 0..6 {
        daemon.notify("App", "Title", &format!("Body {}", i));
    }
    assert_eq!(daemon.count(), 5);
    assert_eq!(daemon.history().len(), 1);
    assert_eq!(daemon.history()[0].id, 1);
    assert_eq!(daemon.visible()[0].id, 2);

    let third = daemon.visible()[1].id;
    daemon.dismiss(third);
    assert_eq!(daemon.count(), 4);
    assert_eq!(daemon.history().len(), 2);
}

#[test]
fn dismiss_all_preserves_order() {
    let mut daemon = NotificationDaemon::new();
    daemon.notify("a", "1", "");
    daemon.notify("b", "2", "");
    daemon.notify("c", "3", "");
    daemon.dismiss_all();
    assert_eq!(daemon.count(), 0);
    let hist: Vec<u32> = daemon.history().iter().map(|n| n.id).collect();
    assert_eq!(hist, vec![1, 2, 3]);
}

#[test]
fn dismiss_of_unknown_id_changes_nothing() {
    let mut daemon = NotificationDaemon::new();
    daemon.notify("a", "1", "");
    daemon.dismiss(99);
    assert_eq!(daemon.count(), 1);
    assert_eq!(daemon.history().len(), 0);
}

#[test]
fn critical_notification_never_expires() {
    let n = Notification::new(1, "app", "s", "b").with_urgency(Urgency::Critical);
    assert_eq!(n.timeout_ms, 0);
    assert!(!n.is_expired());
    assert!(!n.is_expired_at(u64::MAX));
}

#[test]
fn timeout_set_after_critical_reenables_expiry() {
    let n = Notification::new(1, "app", "s", "b")
        .with_urgency(Urgency::Critical)
        .with_timeout(2);
    assert_eq!(n.timeout_ms, 2_000);
    assert!(n.is_expired_at(n.created_at + 2_001));
    assert!(!n.is_expired_at(n.created_at + 2_000));
}

#[test]
fn builders_fill_the_fields() {
    let n = Notification::new(7, "app", "sum", "body")
        .with_icon("icon-name")
        .with_action("ok", "Accept")
        .with_progress(150);
    assert_eq!(n.icon.as_deref(), Some("icon-name"));
    assert_eq!(n.actions, vec![("ok".to_string(), "Accept".to_string())]);
    assert_eq!(n.progress, Some(100));
    assert_eq!(n.urgency, Urgency::Normal);
    assert_eq!(n.timeout_ms, 5_000);
}

#[test]
fn update_changes_only_supplied_fields() {
    let mut daemon = NotificationDaemon::new();
    let id = daemon.notify("app", "old summary", "old body");
    daemon.update(id, Some("new summary"), None, Some(130));
    let n = &daemon.visible()[0];
    assert_eq!(n.summary, "new summary");
    assert_eq!(n.body, "old body");
    assert_eq!(n.progress, Some(100));
}

#[test]
fn cleanup_moves_only_expired_notifications() {
    let mut daemon = NotificationDaemon::new();
    let a = daemon.add(Notification::new(0, "x", "x", "x").with_timeout(1));
    let b = daemon.add(Notification::new(0, "y", "y", "y").with_timeout(0));
    let base = daemon.visible()[0].created_at;
    daemon.cleanup_at(base + 1_500);
    assert_eq!(daemon.count(), 1);
    assert_eq!(daemon.visible()[0].id, b);
    assert_eq!(daemon.history().len(), 1);
    assert_eq!(daemon.history()[0].id, a);
}

#[test]
fn osd_clamps_and_expires() {
    let v = OSD::volume(130);
    assert_eq!(v.kind, OSDKind::Volume);
    assert_eq!(v.value, 100);
    assert_eq!(v.timeout_ms, 1_500);
    assert!(!v.is_expired());
    assert!(v.is_expired_at(v.created_at + 1_501));
    assert!(!v.is_expired_at(v.created_at + 1_500));

    let b = OSD::brightness(40);
    assert_eq!(b.kind, OSDKind::Brightness);
    assert_eq!(b.value, 40);

    let m = OSD::mute();
    assert_eq!(m.kind, OSDKind::Mute);
    assert_eq!(m.value, 0);
}
