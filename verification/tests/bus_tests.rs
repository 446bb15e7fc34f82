use glowdoc::bus::{Received, ReloadBus, ReloadSignal, BUS_CAPACITY};
use glowdoc::coordinator::{ArtifactUpdate, BuildOutcome, RebuildCoordinator};
use glowdoc::debounce::RebuildTrigger;
use glowdoc::session::{Session, SessionAction, SocketEvent};

fn text(received: Received) -> String {
    match received {
        Received::Signal(signal) => signal.message,
        other => panic!("no signal: {:?}", other),
    }
}

fn named(message: &str) -> ReloadSignal {
    ReloadSignal { message: message.to_string() }
}

#[test]
fn capacity_is_16() {
    assert_eq!(BUS_CAPACITY, 16);
}

#[test]
fn reload_signal_reads_reload() {
    assert_eq!(ReloadSignal::reload().message, "reload");
    assert_eq!(named("x").duplicate().message, "x");
}

#[test]
fn two_subscribers_each_receive_one_signal() {
    let mut bus = ReloadBus::new();
    let a = bus.subscribe().unwrap();
    let b = bus.subscribe().unwrap();
    assert_ne!(a, b);
    assert_eq!(bus.subscriber_count(), 2);
    assert_eq!(bus.publish(&ReloadSignal::reload()), 2);
    assert_eq!(text(bus.receive(a)), "reload");
    assert_eq!(text(bus.receive(b)), "reload");
    assert!(matches!(bus.receive(a), Received::Empty));
    assert!(matches!(bus.receive(b), Received::Empty));
}

#[test]
fn nothing_published_before_subscribing_is_delivered() {
    let mut bus = ReloadBus::new();
    assert_eq!(bus.publish(&named("early")), 0);
    let a = bus.subscribe().unwrap();
    assert!(matches!(bus.receive(a), Received::Empty));
    bus.publish(&named("late"));
    assert_eq!(text(bus.receive(a)), "late");
}

#[test]
fn signals_arrive_in_publish_order() {
    let mut bus = ReloadBus::new();
    let a = bus.subscribe().unwrap();
    for i in 0..BUS_CAPACITY {
        bus.publish(&named(&format!("s{}", i)));
    }
    for i in 0..BUS_CAPACITY {
        assert_eq!(text(bus.receive(a)), format!("s{}", i));
    }
    assert!(matches!(bus.receive(a), Received::Empty));
}

#[test]
fn lagging_subscriber_is_told_and_stays() {
    let mut bus = ReloadBus::new();
    let slow = bus.subscribe().unwrap();
    let quick = bus.subscribe().unwrap();
    for i in 0..(BUS_CAPACITY + 3) {
        bus.publish(&named(&format!("s{}", i)));
        assert_eq!(text(bus.receive(quick)), format!("s{}", i));
    }
    assert!(bus.is_subscribed(slow));
    assert!(matches!(bus.receive(slow), Received::Lagged(3)));
    for i in 3..(BUS_CAPACITY + 3) {
        assert_eq!(text(bus.receive(slow)), format!("s{}", i));
    }
    assert!(matches!(bus.receive(slow), Received::Empty));
    bus.publish(&named("next"));
    assert_eq!(text(bus.receive(slow)), "next");
    assert_eq!(text(bus.receive(quick)), "next");
}

#[test]
fn unsubscribed_handle_gets_nothing() {
    let mut bus = ReloadBus::new();
    let a = bus.subscribe().unwrap();
    let b = bus.subscribe().unwrap();
    assert!(bus.unsubscribe(a));
    assert!(!bus.unsubscribe(a));
    assert!(!bus.is_subscribed(a));
    assert_eq!(bus.subscriber_count(), 1);
    assert_eq!(bus.publish(&ReloadSignal::reload()), 1);
    assert!(matches!(bus.receive(a), Received::Closed));
    assert_eq!(text(bus.receive(b)), "reload");
    let c = bus.subscribe().unwrap();
    assert_ne!(c, a);
    assert_ne!(c, b);
}

#[test]
fn closed_bus_delivers_what_is_waiting_then_reports_closure() {
    let mut bus = ReloadBus::new();
    let a = bus.subscribe().unwrap();
    bus.publish(&named("last"));
    assert!(!bus.is_closed());
    bus.close();
    assert!(bus.is_closed());
    assert_eq!(bus.publish(&named("too late")), 0);
    assert_eq!(text(bus.receive(a)), "last");
    assert!(matches!(bus.receive(a), Received::Closed));
    assert!(bus.is_subscribed(a));
}

#[test]
fn coordinator_publishes_after_success_only() {
    let mut bus = ReloadBus::new();
    let a = bus.subscribe().unwrap();
    let mut coordinator = RebuildCoordinator::new();
    assert!(!coordinator.is_building());
    let start = coordinator.on_trigger(RebuildTrigger { cause: "a.md".to_string() });
    assert_eq!(start, Some("a.md".to_string()));
    assert!(coordinator.is_building());
    let done = coordinator.on_build_finished(BuildOutcome::Failure("bad yaml".to_string()), &mut bus);
    assert_eq!(done.delivered, None);
    assert_eq!(done.failure, Some("bad yaml".to_string()));
    assert_eq!(done.next, None);
    assert!(!coordinator.is_building());
    assert!(matches!(bus.receive(a), Received::Empty));

    assert!(coordinator.on_trigger(RebuildTrigger { cause: "a.md".to_string() }).is_some());
    let done = coordinator.on_build_finished(BuildOutcome::Success, &mut bus);
    assert_eq!(done.delivered, Some(1));
    assert_eq!(done.failure, None);
    assert_eq!(text(bus.receive(a)), "reload");
    assert!(matches!(bus.receive(a), Received::Empty));
}

#[test]
fn triggers_during_a_rebuild_collapse_into_one_more() {
    let mut bus = ReloadBus::new();
    let mut coordinator = RebuildCoordinator::new();
    assert!(coordinator.on_trigger(RebuildTrigger { cause: "a".to_string() }).is_some());
    assert!(coordinator.on_trigger(RebuildTrigger { cause: "b".to_string() }).is_none());
    assert!(coordinator.on_trigger(RebuildTrigger { cause: "c".to_string() }).is_none());
    let done = coordinator.on_build_finished(BuildOutcome::Success, &mut bus);
    assert_eq!(done.next, Some("c".to_string()));
    assert!(coordinator.is_building());
    let done = coordinator.on_build_finished(BuildOutcome::Failure("x".to_string()), &mut bus);
    assert_eq!(done.next, None);
    assert!(!coordinator.is_building());
}

#[test]
fn outcome_without_a_rebuild_in_flight_is_ignored() {
    let mut bus = ReloadBus::new();
    let a = bus.subscribe().unwrap();
    let mut coordinator = RebuildCoordinator::new();
    let done = coordinator.on_build_finished(BuildOutcome::Success, &mut bus);
    assert_eq!(done.delivered, None);
    assert!(matches!(bus.receive(a), Received::Empty));
}

fn sent(action: SessionAction) -> String {
    match action {
        SessionAction::Send(text) => text,
        other => panic!("nothing to send: {:?}", other),
    }
}

#[test]
fn greeting_is_connected() {
    assert_eq!(Session::greeting(), "connected");
}

fn connect(identity: &str, bus: &mut ReloadBus) -> Session {
    let mut session = Session::start(identity.to_string(), bus).unwrap();
    assert!(session.live && !session.greeted);
    assert_eq!(sent(session.next_action(bus)), "connected");
    assert!(session.live && session.greeted);
    session
}

#[test]
fn session_acknowledges_the_connection_first_and_once() {
    let mut bus = ReloadBus::new();
    let mut session = Session::start("peer".to_string(), &mut bus).unwrap();
    bus.publish(&ReloadSignal::reload());
    assert_eq!(sent(session.next_action(&mut bus)), "connected");
    assert_eq!(sent(session.next_action(&mut bus)), "reload");
    assert!(matches!(session.next_action(&mut bus), SessionAction::Wait));
    let mut ended = Session::start("gone".to_string(), &mut bus).unwrap();
    ended.end(&mut bus);
    assert!(matches!(ended.next_action(&mut bus), SessionAction::Terminate));
    assert!(!ended.greeted);
}

#[test]
fn two_sessions_each_send_reload_once() {
    let mut bus = ReloadBus::new();
    let mut first = connect("127.0.0.1:5000", &mut bus);
    let mut second = connect("127.0.0.1:5001", &mut bus);
    assert_eq!(first.identity, "127.0.0.1:5000");
    assert!(first.live && second.live);
    assert!(matches!(first.next_action(&mut bus), SessionAction::Wait));
    let mut coordinator = RebuildCoordinator::new();
    coordinator.on_trigger(RebuildTrigger { cause: "a".to_string() });
    coordinator.on_build_finished(BuildOutcome::Success, &mut bus);
    assert_eq!(sent(second.next_action(&mut bus)), "reload");
    assert_eq!(sent(first.next_action(&mut bus)), "reload");
    assert!(matches!(first.next_action(&mut bus), SessionAction::Wait));
    assert!(matches!(second.next_action(&mut bus), SessionAction::Wait));
}

#[test]
fn lagging_session_continues() {
    let mut bus = ReloadBus::new();
    let mut session = connect("peer", &mut bus);
    for _ in 0..(BUS_CAPACITY + 1) {
        bus.publish(&ReloadSignal::reload());
    }
    assert!(matches!(session.next_action(&mut bus), SessionAction::Continue));
    assert!(session.live);
    assert!(bus.is_subscribed(session.subscription));
    for _ in 0..BUS_CAPACITY {
        assert_eq!(sent(session.next_action(&mut bus)), "reload");
    }
    assert!(matches!(session.next_action(&mut bus), SessionAction::Wait));
    bus.publish(&ReloadSignal::reload());
    assert_eq!(sent(session.next_action(&mut bus)), "reload");
}

#[test]
fn close_frame_ends_only_that_session() {
    let mut bus = ReloadBus::new();
    let mut first = connect("a", &mut bus);
    let mut second = connect("b", &mut bus);
    assert!(matches!(first.on_socket(SocketEvent::Frame, &mut bus), SessionAction::Continue));
    assert!(first.live);
    assert!(matches!(first.on_socket(SocketEvent::CloseFrame, &mut bus), SessionAction::Terminate));
    assert!(!first.live);
    assert!(!bus.is_subscribed(first.subscription));
    assert!(bus.is_subscribed(second.subscription));
    assert_eq!(bus.publish(&ReloadSignal::reload()), 1);
    assert_eq!(sent(second.next_action(&mut bus)), "reload");
    assert!(matches!(first.next_action(&mut bus), SessionAction::Terminate));
    assert!(matches!(first.on_socket(SocketEvent::Frame, &mut bus), SessionAction::Terminate));
}

#[test]
fn every_socket_failure_ends_the_session() {
    for event in [SocketEvent::Failed, SocketEvent::Ended, SocketEvent::SendFailed] {
        let mut bus = ReloadBus::new();
        let mut session = Session::start("a".to_string(), &mut bus).unwrap();
        assert!(matches!(session.on_socket(event, &mut bus), SessionAction::Terminate));
        assert_eq!(bus.subscriber_count(), 0);
    }
}

#[test]
fn closed_bus_ends_the_session() {
    let mut bus = ReloadBus::new();
    let mut session = connect("a", &mut bus);
    bus.publish(&ReloadSignal::reload());
    bus.close();
    assert_eq!(sent(session.next_action(&mut bus)), "reload");
    assert!(matches!(session.next_action(&mut bus), SessionAction::Terminate));
    assert!(!session.live);
    assert_eq!(bus.subscriber_count(), 0);
}

#[test]
fn ending_twice_changes_nothing_more() {
    let mut bus = ReloadBus::new();
    let mut session = Session::start("a".to_string(), &mut bus).unwrap();
    let other = bus.subscribe().unwrap();
    session.end(&mut bus);
    session.end(&mut bus);
    assert!(bus.is_subscribed(other));
    assert_eq!(bus.subscriber_count(), 1);
}

#[test]
fn only_a_build_that_gave_a_page_replaces_the_artifact() {
    let (update, outcome) = RebuildCoordinator::settle(Ok("<html>new</html>".to_string()));
    assert!(matches!(update, ArtifactUpdate::Replace(page) if page == "<html>new</html>"));
    assert!(matches!(outcome, BuildOutcome::Success));
    let (update, outcome) = RebuildCoordinator::settle(Err("bad yaml".to_string()));
    assert!(matches!(update, ArtifactUpdate::Keep));
    assert!(matches!(outcome, BuildOutcome::Failure(detail) if detail == "bad yaml"));
}

#[test]
fn subscriber_count_follows_sessions() {
    let mut bus = ReloadBus::new();
    let mut first = Session::start("a".to_string(), &mut bus).unwrap();
    let mut second = Session::start("b".to_string(), &mut bus).unwrap();
    assert_eq!(bus.subscriber_count(), 2);
    first.on_socket(SocketEvent::CloseFrame, &mut bus);
    assert_eq!(bus.subscriber_count(), 1);
    first.end(&mut bus);
    assert_eq!(bus.subscriber_count(), 1);
    second.on_socket(SocketEvent::Ended, &mut bus);
    assert_eq!(bus.subscriber_count(), 0);
}

#[test]
fn session_decides_by_what_was_received() {
    let mut bus = ReloadBus::new();
    let mut session = connect("peer", &mut bus);
    let other = bus.subscribe().unwrap();
    assert_eq!(sent(session.on_received(Received::Signal(named("reload")), &mut bus)), "reload");
    assert!(matches!(session.on_received(Received::Lagged(3), &mut bus), SessionAction::Continue));
    assert!(matches!(session.on_received(Received::Empty, &mut bus), SessionAction::Wait));
    assert!(session.live);
    assert_eq!(bus.subscriber_count(), 2);
    assert!(matches!(session.on_received(Received::Closed, &mut bus), SessionAction::Terminate));
    assert!(!session.live);
    assert!(bus.is_subscribed(other));
    assert_eq!(bus.subscriber_count(), 1);
    assert!(matches!(
        session.on_received(Received::Signal(named("late")), &mut bus),
        SessionAction::Terminate
    ));
}
