use cosi::manager::Manager;
use cosi::notify::{DeliverOutcome, NotificationHub, SubscribeOutcome};

#[test]
fn delivery_reaches_the_subscribed_watcher() {
    let mut hub = NotificationHub::new();
    let (manager, tx) = Manager::new();
    assert_eq!(hub.subscribe(5, tx), SubscribeOutcome::Watching);
    assert_eq!(hub.deliver(5), DeliverOutcome::Delivered);
    assert_eq!(manager.watch(5), Some(5));
}

#[test]
fn no_notification_theft_between_watchers() {
    // Two managers, two children: each exit notification reaches exactly
    // the manager watching that pid, whatever the order of deliveries — the
    // watcher of the other pid never consumes it.
    let mut hub = NotificationHub::new();
    let (manager_a, tx_a) = Manager::new();
    let (manager_b, tx_b) = Manager::new();
    assert_eq!(hub.subscribe(5, tx_a), SubscribeOutcome::Watching);
    assert_eq!(hub.subscribe(6, tx_b), SubscribeOutcome::Watching);

    assert_eq!(hub.deliver(6), DeliverOutcome::Delivered);
    assert_eq!(hub.deliver(5), DeliverOutcome::Delivered);

    assert_eq!(manager_a.watch(5), Some(5));
    assert_eq!(manager_b.watch(6), Some(6));
}

#[test]
fn early_collection_is_parked_and_claimed() {
    // The child dies before its watcher subscribes: the notification is
    // parked, not dropped, and the subscription claims it so the watcher
    // does not block for a notification that already came.
    let mut hub = NotificationHub::new();
    assert_eq!(hub.deliver(7), DeliverOutcome::Parked);

    let (_manager, tx) = Manager::new();
    assert_eq!(hub.subscribe(7, tx), SubscribeOutcome::AlreadyReaped);

    // Claimed once: a second subscription for the pid starts a fresh watch.
    let (_manager2, tx2) = Manager::new();
    assert_eq!(hub.subscribe(7, tx2), SubscribeOutcome::Watching);
}

#[test]
fn duplicate_subscription_is_refused() {
    let mut hub = NotificationHub::new();
    let (_manager_a, tx_a) = Manager::new();
    let (_manager_b, tx_b) = Manager::new();
    assert_eq!(hub.subscribe(9, tx_a), SubscribeOutcome::Watching);
    assert_eq!(hub.subscribe(9, tx_b), SubscribeOutcome::AlreadyWatched);
}

#[test]
fn unsubscribe_removes_the_watcher() {
    let mut hub = NotificationHub::new();
    let (manager, tx) = Manager::new();
    assert_eq!(hub.subscribe(4, tx), SubscribeOutcome::Watching);
    hub.unsubscribe(4);
    // With the subscription gone, a late collection is parked...
    assert_eq!(hub.deliver(4), DeliverOutcome::Parked);
    // ... and the watcher's channel has no senders left.
    assert_eq!(manager.watch(4), None);
}

#[test]
fn dead_channel_is_reported() {
    let mut hub = NotificationHub::new();
    let (manager, tx) = Manager::new();
    assert_eq!(hub.subscribe(3, tx), SubscribeOutcome::Watching);
    drop(manager);
    assert_eq!(hub.deliver(3), DeliverOutcome::ChannelDead);
}
