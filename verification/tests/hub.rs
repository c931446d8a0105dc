use broadcast_relay::relay::error::RelayError;
use broadcast_relay::relay::hub::{Delivery, Hub, DEFAULT_CAPACITY};
use broadcast_relay::relay::message::Message;

fn text(s: &str) -> Message {
    Message::Text(s.to_string())
}

fn numbered(i: usize) -> Message {
    Message::Text(format!("m{i}"))
}

#[test]
fn default_hub_holds_thirty_two() {
    let hub = Hub::default();
    assert_eq!(DEFAULT_CAPACITY, 32);
    assert_eq!(hub.capacity(), 32);
    assert_eq!(hub.published(), 0);
    assert_eq!(hub.retained(), 0);
    assert!(!hub.is_closed());
}

#[test]
fn subscriber_starts_at_the_tail() {
    let mut hub = Hub::new(4);
    hub.publish(text("before")).unwrap();
    let mut sub = hub.subscribe();
    assert_eq!(sub.position(), 1);
    assert!(!sub.is_dropped());
    assert_eq!(hub.next(&mut sub), Delivery::Pending);
    hub.publish(text("after")).unwrap();
    assert_eq!(hub.next(&mut sub), Delivery::Message(text("after")));
    assert_eq!(hub.next(&mut sub), Delivery::Pending);
    assert_eq!(sub.position(), 2);
}

#[test]
fn every_subscriber_sees_publish_order() {
    let mut hub = Hub::new(8);
    let mut a = hub.subscribe();
    let mut b = hub.subscribe();
    for i in 0..5 {
        hub.publish(numbered(i)).unwrap();
    }
    for i in 0..5 {
        assert_eq!(hub.next(&mut a), Delivery::Message(numbered(i)));
    }
    assert_eq!(hub.next(&mut a), Delivery::Pending);
    for i in 0..5 {
        assert_eq!(hub.next(&mut b), Delivery::Message(numbered(i)));
    }
    assert_eq!(hub.next(&mut b), Delivery::Pending);
}

#[test]
fn interleaved_reads_keep_order() {
    let mut hub = Hub::new(3);
    let mut sub = hub.subscribe();
    let mut seen = Vec::new();
    for i in 0..10 {
        hub.publish(numbered(i)).unwrap();
        if i % 2 == 1 {
            while let Delivery::Message(m) = hub.next(&mut sub) {
                seen.push(m);
            }
        }
    }
    let expected: Vec<Message> = (0..10).map(numbered).collect();
    assert_eq!(seen, expected);
}

#[test]
fn binary_payload_is_relayed_verbatim() {
    let mut hub = Hub::new(2);
    let mut sub = hub.subscribe();
    let payload = vec![0u8, 255, 1, 128, 0];
    hub.publish(Message::Binary(payload.clone())).unwrap();
    assert_eq!(hub.next(&mut sub), Delivery::Message(Message::Binary(payload)));
}

#[test]
fn exactly_capacity_behind_is_not_lagging() {
    let mut hub = Hub::new(4);
    let mut sub = hub.subscribe();
    for i in 0..4 {
        hub.publish(numbered(i)).unwrap();
    }
    assert_eq!(hub.retained(), 4);
    for i in 0..4 {
        assert_eq!(hub.next(&mut sub), Delivery::Message(numbered(i)));
    }
    assert_eq!(hub.next(&mut sub), Delivery::Pending);
}

#[test]
fn one_more_than_capacity_behind_is_lagging() {
    let mut hub = Hub::new(4);
    let mut sub = hub.subscribe();
    for i in 0..5 {
        hub.publish(numbered(i)).unwrap();
    }
    assert_eq!(hub.retained(), 4);
    assert_eq!(hub.next(&mut sub), Delivery::Lagged);
    assert!(sub.is_dropped());
}

#[test]
fn lagged_comes_once_and_then_nothing() {
    let mut hub = Hub::new(2);
    let mut sub = hub.subscribe();
    for i in 0..3 {
        hub.publish(numbered(i)).unwrap();
    }
    assert_eq!(hub.next(&mut sub), Delivery::Lagged);
    for i in 3..6 {
        assert_eq!(hub.next(&mut sub), Delivery::Closed);
        hub.publish(numbered(i)).unwrap();
    }
    assert_eq!(hub.next(&mut sub), Delivery::Closed);
    assert_eq!(sub.position(), 0);
}

#[test]
fn forty_publishes_against_thirty_two_slots() {
    let mut hub = Hub::new(32);
    let mut paused = hub.subscribe();
    let mut keeping_up = hub.subscribe();
    for i in 0..40 {
        hub.publish(numbered(i)).unwrap();
        assert_eq!(hub.next(&mut keeping_up), Delivery::Message(numbered(i)));
    }
    assert_eq!(hub.published(), 40);
    assert_eq!(hub.retained(), 32);
    assert_eq!(hub.next(&mut paused), Delivery::Lagged);
    assert_eq!(hub.next(&mut paused), Delivery::Closed);
    assert_eq!(hub.next(&mut keeping_up), Delivery::Pending);
}

#[test]
fn a_slow_subscriber_does_not_hold_up_a_publisher() {
    let mut hub = Hub::new(1);
    let mut slow = hub.subscribe();
    for i in 0..100 {
        assert_eq!(hub.publish(numbered(i)), Ok(()));
    }
    assert_eq!(hub.published(), 100);
    assert_eq!(hub.retained(), 1);
    assert_eq!(hub.next(&mut slow), Delivery::Lagged);
    let mut late = hub.subscribe();
    hub.publish(text("last")).unwrap();
    assert_eq!(hub.next(&mut late), Delivery::Message(text("last")));
}

#[test]
fn a_hub_without_slots_drops_every_reader() {
    let mut hub = Hub::new(0);
    let mut sub = hub.subscribe();
    assert_eq!(hub.next(&mut sub), Delivery::Pending);
    hub.publish(text("gone")).unwrap();
    assert_eq!(hub.retained(), 0);
    assert_eq!(hub.next(&mut sub), Delivery::Lagged);
}

#[test]
fn closed_hub_takes_nothing_and_drains() {
    let mut hub = Hub::new(4);
    let mut sub = hub.subscribe();
    hub.publish(text("kept")).unwrap();
    hub.close();
    assert!(hub.is_closed());
    assert_eq!(hub.publish(text("late")), Err(RelayError::HubUnavailable));
    assert_eq!(hub.published(), 1);
    assert_eq!(hub.next(&mut sub), Delivery::Message(text("kept")));
    assert_eq!(hub.next(&mut sub), Delivery::Closed);
    assert_eq!(hub.next(&mut sub), Delivery::Closed);
    assert!(!sub.is_dropped());
}

#[test]
fn hub_does_not_filter_what_it_is_given() {
    let mut hub = Hub::new(4);
    let mut sub = hub.subscribe();
    hub.publish(Message::Ping(vec![1])).unwrap();
    assert_eq!(hub.next(&mut sub), Delivery::Message(Message::Ping(vec![1])));
}
