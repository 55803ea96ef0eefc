use web_remote::bus::{BroadcastBus, Received};
use web_remote::frame::Frame;

fn text(s: &str) -> Frame {
    Frame::Text(s.to_string())
}

#[test]
fn subscriber_sees_publishes_in_order() {
    let mut bus = BroadcastBus::new(100);
    let mut c = bus.subscribe();
    bus.publish(text("p1"));
    bus.publish(Frame::Binary(vec![1, 2, 3]));
    bus.publish(text("p3"));
    assert_eq!(bus.recv(&mut c), Received::Message(text("p1")));
    assert_eq!(bus.recv(&mut c), Received::Message(Frame::Binary(vec![1, 2, 3])));
    assert_eq!(bus.recv(&mut c), Received::Message(text("p3")));
    assert_eq!(bus.recv(&mut c), Received::Empty);
}

#[test]
fn subscriber_does_not_see_history() {
    let mut bus = BroadcastBus::new(4);
    bus.publish(text("old"));
    let mut c = bus.subscribe();
    assert_eq!(bus.recv(&mut c), Received::Empty);
    bus.publish(text("new"));
    assert_eq!(bus.recv(&mut c), Received::Message(text("new")));
}

#[test]
fn lagging_subscriber_gets_one_lag_then_resumes() {
    let mut bus = BroadcastBus::new(3);
    let mut c = bus.subscribe();
    for i in 0..5u8 {
        bus.publish(Frame::Binary(vec![i]));
    }
    assert_eq!(bus.recv(&mut c), Received::Lagged(2));
    assert_eq!(bus.recv(&mut c), Received::Message(Frame::Binary(vec![2])));
    assert_eq!(bus.recv(&mut c), Received::Message(Frame::Binary(vec![3])));
    assert_eq!(bus.recv(&mut c), Received::Message(Frame::Binary(vec![4])));
    assert_eq!(bus.recv(&mut c), Received::Empty);
    bus.publish(Frame::Binary(vec![5]));
    assert_eq!(bus.recv(&mut c), Received::Message(Frame::Binary(vec![5])));
}

#[test]
fn exactly_capacity_behind_is_not_lagged() {
    let mut bus = BroadcastBus::new(2);
    let mut c = bus.subscribe();
    bus.publish(text("a"));
    bus.publish(text("b"));
    assert_eq!(bus.recv(&mut c), Received::Message(text("a")));
    assert_eq!(bus.recv(&mut c), Received::Message(text("b")));
}

#[test]
fn cursors_are_independent() {
    let mut bus = BroadcastBus::new(8);
    let mut a = bus.subscribe();
    let mut b = bus.subscribe();
    bus.publish(text("x"));
    assert_eq!(bus.recv(&mut a), Received::Message(text("x")));
    assert_eq!(bus.recv(&mut a), Received::Empty);
    assert_eq!(bus.recv(&mut b), Received::Message(text("x")));
    assert_eq!(bus.published(), 1);
}

#[test]
fn closed_bus_reports_closed_after_pending() {
    let mut bus = BroadcastBus::new(8);
    let mut c = bus.subscribe();
    bus.publish(text("last"));
    bus.close();
    assert_eq!(bus.recv(&mut c), Received::Message(text("last")));
    assert_eq!(bus.recv(&mut c), Received::Closed);
}

#[test]
fn received_frame_is_a_copy() {
    let mut bus = BroadcastBus::new(8);
    let mut c = bus.subscribe();
    bus.publish(Frame::Ping(vec![9, 8]));
    bus.publish(Frame::Pong(vec![7]));
    bus.publish(Frame::Close);
    assert_eq!(bus.recv(&mut c), Received::Message(Frame::Ping(vec![9, 8])));
    assert_eq!(bus.recv(&mut c), Received::Message(Frame::Pong(vec![7])));
    assert_eq!(bus.recv(&mut c), Received::Message(Frame::Close));
    assert_eq!(Frame::Text("t".to_string()).clone(), text("t"));
}
