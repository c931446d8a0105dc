use axum::http::{HeaderMap, HeaderValue};
use broadcast_relay::relay::admission::AdmissionGate;
use broadcast_relay::relay::error::RelayError;
use broadcast_relay::relay::hub::Hub;
use broadcast_relay::relay::message::Message;
use broadcast_relay::relay::session::{Flow, Half, Inbound, Outbound, Session, SessionState};

fn credential() -> AdmissionGate {
    AdmissionGate::new("Bearer roken")
}

fn valid_headers() -> HeaderMap {
    let mut headers = HeaderMap::new();
    headers.insert("Authorization", HeaderValue::from_static("Bearer roken"));
    headers
}

fn active(hub: &Hub) -> Session {
    let mut session = Session::accept(&credential(), &valid_headers()).unwrap();
    session.activate(hub);
    session
}

fn text(s: &str) -> Message {
    Message::Text(s.to_string())
}

#[test]
fn accepted_session_waits_for_the_upgrade() {
    let session = Session::accept(&credential(), &valid_headers()).unwrap();
    assert_eq!(session.state(), SessionState::Admitted);
    assert_eq!(session.position(), None);
    assert_eq!(session.cause(), None);
    assert!(!session.is_cancelled());
    assert!(!session.is_running(Half::Inbound));
    assert!(!session.is_running(Half::Outbound));
}

#[test]
fn refused_attempt_yields_no_session() {
    let missing = HeaderMap::new();
    assert_eq!(
        Session::accept(&credential(), &missing).err(),
        Some(RelayError::AdmissionDenied)
    );
    let mut wrong = HeaderMap::new();
    wrong.insert("Authorization", HeaderValue::from_static("Bearer token"));
    assert_eq!(
        Session::accept(&credential(), &wrong).err(),
        Some(RelayError::AdmissionDenied)
    );
}

#[test]
fn upgrade_activates_and_subscribes_at_the_tail() {
    let mut hub = Hub::new(4);
    hub.publish(text("old")).unwrap();
    let mut session = active(&hub);
    assert_eq!(session.state(), SessionState::Active);
    assert_eq!(session.position(), Some(1));
    assert!(session.is_running(Half::Inbound));
    assert!(session.is_running(Half::Outbound));
    assert_eq!(session.poll(&hub), Outbound::Wait);
}

#[test]
fn activation_happens_once() {
    let mut hub = Hub::new(4);
    let mut session = active(&hub);
    hub.publish(text("one")).unwrap();
    session.activate(&hub);
    assert_eq!(session.position(), Some(0));
    assert_eq!(session.poll(&hub), Outbound::Write(text("one")));
}

#[test]
fn a_session_that_was_not_upgraded_does_nothing() {
    let mut hub = Hub::new(4);
    let mut session = Session::accept(&credential(), &valid_headers()).unwrap();
    assert_eq!(session.on_inbound(&mut hub, Inbound::Frame(text("early"))), Flow::Stop);
    assert_eq!(hub.published(), 0);
    assert_eq!(session.poll(&hub), Outbound::Stop);
    assert_eq!(session.on_write(true), Flow::Stop);
    assert!(!session.confirm_exit(Half::Inbound));
    assert_eq!(session.state(), SessionState::Admitted);
}

#[test]
fn hello_reaches_both_sessions_once() {
    let mut hub = Hub::default();
    let mut a = active(&hub);
    let mut b = active(&hub);
    assert_eq!(a.on_inbound(&mut hub, Inbound::Frame(text("hello"))), Flow::Continue);
    assert_eq!(a.poll(&hub), Outbound::Write(text("hello")));
    assert_eq!(a.on_write(true), Flow::Continue);
    assert_eq!(a.poll(&hub), Outbound::Wait);
    assert_eq!(b.poll(&hub), Outbound::Write(text("hello")));
    assert_eq!(b.on_write(true), Flow::Continue);
    assert_eq!(b.poll(&hub), Outbound::Wait);
    assert_eq!(hub.published(), 1);
}

#[test]
fn concurrent_publishes_arrive_in_hub_order_everywhere() {
    let mut hub = Hub::default();
    let mut a = active(&hub);
    let mut b = active(&hub);
    a.on_inbound(&mut hub, Inbound::Frame(text("a1")));
    b.on_inbound(&mut hub, Inbound::Frame(text("b1")));
    a.on_inbound(&mut hub, Inbound::Frame(text("hello")));
    b.on_inbound(&mut hub, Inbound::Frame(Message::Binary(vec![1, 2])));
    let expected = [text("a1"), text("b1"), text("hello"), Message::Binary(vec![1, 2])];
    for session in [&mut a, &mut b] {
        for m in expected.iter() {
            assert_eq!(session.poll(&hub), Outbound::Write(m.clone()));
        }
        assert_eq!(session.poll(&hub), Outbound::Wait);
    }
}

#[test]
fn paused_session_lags_after_forty_messages() {
    let mut hub = Hub::new(32);
    let mut c = active(&hub);
    let mut other = active(&hub);
    for i in 0..40 {
        let frame = Inbound::Frame(Message::Text(format!("m{i}")));
        assert_eq!(other.on_inbound(&mut hub, frame), Flow::Continue);
    }
    assert_eq!(c.poll(&hub), Outbound::Stop);
    assert_eq!(c.state(), SessionState::Draining);
    assert_eq!(c.cause(), Some(RelayError::SubscriberLagged));
    assert!(c.is_cancelled());
    assert_eq!(c.poll(&hub), Outbound::Stop);
    assert_eq!(c.on_inbound(&mut hub, Inbound::Frame(text("too late"))), Flow::Stop);
    assert_eq!(hub.published(), 40);
    assert!(!c.confirm_exit(Half::Outbound));
    assert!(c.confirm_exit(Half::Inbound));
    assert_eq!(c.state(), SessionState::Closed);
    assert_eq!(c.poll(&hub), Outbound::Stop);
}

#[test]
fn close_frame_drains_and_stops_the_outbound_loop() {
    let mut hub = Hub::new(4);
    let mut session = active(&hub);
    hub.publish(text("pending")).unwrap();
    assert_eq!(session.on_inbound(&mut hub, Inbound::Frame(Message::Close)), Flow::Stop);
    assert_eq!(session.state(), SessionState::Draining);
    assert_eq!(session.cause(), None);
    assert!(session.is_cancelled());
    assert_eq!(hub.published(), 1);
    assert_eq!(session.poll(&hub), Outbound::Stop);
    assert_eq!(session.on_write(true), Flow::Stop);
    assert_eq!(session.position(), Some(0));
    assert!(!session.confirm_exit(Half::Inbound));
    assert_eq!(session.state(), SessionState::Draining);
    assert!(!session.is_running(Half::Inbound));
    assert!(session.is_running(Half::Outbound));
    assert!(session.confirm_exit(Half::Outbound));
    assert_eq!(session.state(), SessionState::Closed);
    assert_eq!(session.position(), None);
    assert!(!session.is_running(Half::Outbound));
    assert!(!session.confirm_exit(Half::Outbound));
}

#[test]
fn exits_may_be_confirmed_in_either_order() {
    let mut hub = Hub::new(4);
    let mut session = active(&hub);
    session.on_inbound(&mut hub, Inbound::Failed);
    assert!(!session.confirm_exit(Half::Outbound));
    assert!(!session.confirm_exit(Half::Outbound));
    assert!(session.confirm_exit(Half::Inbound));
    assert_eq!(session.state(), SessionState::Closed);
}

#[test]
fn failed_read_ends_the_session() {
    let mut hub = Hub::new(4);
    let mut session = active(&hub);
    assert_eq!(session.on_inbound(&mut hub, Inbound::Failed), Flow::Stop);
    assert_eq!(session.state(), SessionState::Draining);
    assert_eq!(session.cause(), Some(RelayError::PeerDisconnected));
    assert_eq!(session.poll(&hub), Outbound::Stop);
}

#[test]
fn failed_write_ends_the_session() {
    let mut hub = Hub::new(4);
    let mut session = active(&hub);
    hub.publish(text("x")).unwrap();
    assert_eq!(session.poll(&hub), Outbound::Write(text("x")));
    assert_eq!(session.on_write(false), Flow::Stop);
    assert_eq!(session.state(), SessionState::Draining);
    assert_eq!(session.cause(), Some(RelayError::PeerDisconnected));
    assert_eq!(session.on_inbound(&mut hub, Inbound::Frame(text("y"))), Flow::Stop);
    assert_eq!(hub.published(), 1);
}

#[test]
fn first_cause_is_kept() {
    let mut hub = Hub::new(4);
    let mut session = active(&hub);
    session.on_inbound(&mut hub, Inbound::Frame(Message::Close));
    assert_eq!(session.on_write(false), Flow::Stop);
    assert_eq!(session.on_inbound(&mut hub, Inbound::Failed), Flow::Stop);
    assert_eq!(session.cause(), None);
}

#[test]
fn ping_and_pong_are_not_relayed() {
    let mut hub = Hub::new(4);
    let mut session = active(&hub);
    assert_eq!(
        session.on_inbound(&mut hub, Inbound::Frame(Message::Ping(vec![1]))),
        Flow::Continue
    );
    assert_eq!(
        session.on_inbound(&mut hub, Inbound::Frame(Message::Pong(vec![1]))),
        Flow::Continue
    );
    assert_eq!(hub.published(), 0);
    assert_eq!(session.state(), SessionState::Active);
    assert_eq!(session.poll(&hub), Outbound::Wait);
}

#[test]
fn torn_down_hub_ends_every_session() {
    let mut hub = Hub::new(4);
    let mut reader = active(&hub);
    let mut writer = active(&hub);
    hub.close();
    assert_eq!(writer.on_inbound(&mut hub, Inbound::Frame(text("x"))), Flow::Stop);
    assert_eq!(writer.cause(), Some(RelayError::HubUnavailable));
    assert_eq!(reader.poll(&hub), Outbound::Stop);
    assert_eq!(reader.cause(), Some(RelayError::HubUnavailable));
    assert_eq!(reader.state(), SessionState::Draining);
}

#[test]
fn one_session_failing_leaves_the_others_alone() {
    let mut hub = Hub::new(2);
    let mut slow = active(&hub);
    let mut fast = active(&hub);
    for i in 0..3 {
        fast.on_inbound(&mut hub, Inbound::Frame(Message::Text(format!("m{i}"))));
        assert_eq!(fast.poll(&hub), Outbound::Write(Message::Text(format!("m{i}"))));
    }
    assert_eq!(slow.poll(&hub), Outbound::Stop);
    assert_eq!(fast.on_inbound(&mut hub, Inbound::Frame(text("still here"))), Flow::Continue);
    assert_eq!(fast.poll(&hub), Outbound::Write(text("still here")));
    assert_eq!(fast.state(), SessionState::Active);
}
