use abevbot::chat::OutboundQueue;
use abevbot::notify::{
    add_bits_notification, add_channel_redemption_notification, add_follow_notification,
    add_raid_notification, add_subscription_ext_notification, add_subscription_gift_notification,
    add_subscription_gift_received_notification, add_subscription_notification,
    follow_notification, subscription_notification, Notification, NotificationHub,
    NotificationType,
};

fn shown(hub: &mut NotificationHub, id: u64) -> Option<String> {
    hub.take_pending(id).map(|n| n.message_displayed.unwrap_or_default())
}

#[test]
fn type_indices() {
    assert_eq!(NotificationType::Unset.index(), 0);
    assert_eq!(NotificationType::Follow.index(), 1);
    assert_eq!(NotificationType::SubscriptionGiftReceived.index(), 5);
    assert_eq!(NotificationType::ChannelRedemption.index(), 8);
}

#[test]
fn follow_and_subscription_contents() {
    let f = follow_notification("Ann");
    assert_eq!(f.kind, NotificationType::Follow);
    assert_eq!(f.message_chat.as_deref(), Some("@Ann thank you for following!"));
    assert_eq!(f.message_displayed.as_deref(), Some("New follower Ann!"));
    assert_eq!(f.message_displayed_position, (100, 200));
    assert_eq!(f.played_sound.as_deref(), Some("follow_sound"));
    assert_eq!(f.played_sound_volume, 20);
    assert_eq!(f.played_video, None);
    let s = subscription_notification("Bo");
    assert_eq!(s.kind, NotificationType::Subscription);
    assert_eq!(s.message_chat, None);
    assert_eq!(s.message_displayed.as_deref(), Some("Bo just subscribed!"));
    assert_eq!(s.played_video.as_deref(), Some("sub_video"));
    assert_eq!(s.played_video_volume, 50);
    assert_eq!(s.played_video_position, (100, 400));
    assert_eq!(s.played_video_size, (200, 200));
    let d = Notification::default();
    assert_eq!(d.kind, NotificationType::Unset);
    assert_eq!(d.played_sound_volume, 100);
}

#[test]
fn every_builder_queues_its_type() {
    let mut hub = NotificationHub::new();
    add_follow_notification(&mut hub, "a");
    add_subscription_notification(&mut hub, "b");
    add_subscription_ext_notification(&mut hub);
    add_subscription_gift_notification(&mut hub);
    add_subscription_gift_received_notification(&mut hub);
    add_bits_notification(&mut hub);
    add_raid_notification(&mut hub);
    add_channel_redemption_notification(&mut hub);
    assert_eq!(hub.queue_len(), 8);
    let id = hub.register_client().unwrap();
    let mut chat = OutboundQueue::new();
    let mut kinds = Vec::new();
    for _ in 0..8 {
        hub.tick(&mut chat, "chan");
        kinds.push(hub.take_pending(id).unwrap().kind.index());
        hub.on_client_text(id, "FINISHED");
        hub.tick(&mut chat, "chan");
    }
    assert_eq!(kinds, vec![1, 2, 3, 4, 5, 6, 7, 8]);
}

#[test]
fn single_flight_three_notifications_one_client() {
    let mut hub = NotificationHub::new();
    let mut chat = OutboundQueue::new();
    let id = hub.register_client().unwrap();
    add_follow_notification(&mut hub, "N1");
    add_follow_notification(&mut hub, "N2");
    add_follow_notification(&mut hub, "N3");
    let mut order = Vec::new();

    hub.tick(&mut chat, "chan");
    assert!(hub.is_active());
    order.push(shown(&mut hub, id).unwrap());
    // Without an acknowledgement nothing else is dispatched.
    for _ in 0..5 {
        hub.tick(&mut chat, "chan");
        assert_eq!(shown(&mut hub, id), None);
    }
    for _ in 0..2 {
        hub.on_client_text(id, "FINISHED");
        hub.tick(&mut chat, "chan");
        assert!(!hub.is_active());
        hub.tick(&mut chat, "chan");
        order.push(shown(&mut hub, id).unwrap());
        assert_eq!(shown(&mut hub, id), None);
    }
    assert_eq!(order, vec!["New follower N1!", "New follower N2!", "New follower N3!"]);
    assert_eq!(chat.len(), 3);
    assert_eq!(chat.pop(), Some("PRIVMSG #chan :@N1 thank you for following!\r\n".to_string()));
}

#[test]
fn other_text_does_not_finish() {
    let mut hub = NotificationHub::new();
    let mut chat = OutboundQueue::new();
    let id = hub.register_client().unwrap();
    add_raid_notification(&mut hub);
    hub.tick(&mut chat, "chan");
    hub.on_client_text(id, "finished");
    hub.on_client_text(id, "FINISHED ");
    hub.tick(&mut chat, "chan");
    assert!(hub.is_active());
    assert!(!hub.all_finished());
}

#[test]
fn barrier_with_churn() {
    let mut hub = NotificationHub::new();
    let mut chat = OutboundQueue::new();
    let a = hub.register_client().unwrap();
    let b = hub.register_client().unwrap();
    add_subscription_notification(&mut hub, "N1");
    add_subscription_notification(&mut hub, "N2");
    hub.tick(&mut chat, "chan");
    assert!(hub.is_active());
    assert_eq!(shown(&mut hub, a).as_deref(), Some("N1 just subscribed!"));
    assert_eq!(shown(&mut hub, b).as_deref(), Some("N1 just subscribed!"));
    hub.on_client_text(a, "FINISHED");
    assert!(!hub.all_finished());
    hub.tick(&mut chat, "chan");
    assert!(hub.is_active());
    hub.remove_client(b);
    assert!(hub.all_finished());
    hub.tick(&mut chat, "chan");
    assert!(!hub.is_active());
    hub.tick(&mut chat, "chan");
    assert_eq!(hub.client_count(), 1);
    assert_eq!(shown(&mut hub, a).as_deref(), Some("N2 just subscribed!"));
    assert_eq!(hub.queue_len(), 0);
}

#[test]
fn vacuous_dispatch_does_not_block() {
    let mut hub = NotificationHub::new();
    let mut chat = OutboundQueue::new();
    add_follow_notification(&mut hub, "N1");
    add_follow_notification(&mut hub, "N2");
    hub.tick(&mut chat, "chan");
    assert!(!hub.is_active());
    assert_eq!(hub.queue_len(), 1);
    hub.tick(&mut chat, "chan");
    assert!(!hub.is_active());
    assert_eq!(hub.queue_len(), 0);
    assert_eq!(hub.history_len(), 2);
    // The chat is thanked even when nobody watches.
    assert_eq!(chat.len(), 2);
}

#[test]
fn history_keeps_the_last_twenty() {
    let mut hub = NotificationHub::new();
    let mut chat = OutboundQueue::new();
    for _ in 0..25 {
        add_bits_notification(&mut hub);
    }
    for _ in 0..25 {
        hub.tick(&mut chat, "chan");
    }
    assert_eq!(hub.history_len(), 20);
    assert_eq!(hub.queue_len(), 0);
}

#[test]
fn removing_an_unknown_client_changes_nothing() {
    let mut hub = NotificationHub::new();
    let a = hub.register_client().unwrap();
    hub.remove_client(a + 10);
    assert_eq!(hub.client_count(), 1);
    hub.remove_client(a);
    assert_eq!(hub.client_count(), 0);
    let b = hub.register_client().unwrap();
    assert_ne!(a, b);
}
