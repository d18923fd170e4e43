use actor_system::EventBus;
use actor_system::RecvOutcome;
use actor_system::SystemEvent;

#[derive(Clone, Debug, PartialEq)]
struct Note(u32);

impl SystemEvent for Note {}

#[test]
fn send_without_subscribers_hands_the_event_back() {
    let mut bus: EventBus<Note> = EventBus::new(16);
    let outcome = bus.send(Note(7));
    assert_eq!(outcome, Err(Note(7)));
}

#[test]
fn send_reports_the_subscriber_count() {
    let mut bus: EventBus<Note> = EventBus::new(16);
    let _one = bus.subscribe();
    let _two = bus.subscribe();
    let outcome = bus.send(Note(1));
    assert_eq!(outcome, Ok(2));
}

#[test]
fn subscriber_receives_in_publication_order() {
    let mut bus: EventBus<Note> = EventBus::new(16);
    let mut sub = bus.subscribe();
    assert_eq!(sub.try_recv(), RecvOutcome::Empty);
    assert_eq!(bus.send(Note(1)), Ok(1));
    assert_eq!(bus.send(Note(2)), Ok(1));
    assert_eq!(sub.try_recv(), RecvOutcome::Event(Note(1)));
    assert_eq!(sub.try_recv(), RecvOutcome::Event(Note(2)));
    assert_eq!(sub.try_recv(), RecvOutcome::Empty);
}

#[test]
fn late_subscriber_misses_earlier_events() {
    let mut bus: EventBus<Note> = EventBus::new(16);
    let mut early = bus.subscribe();
    assert_eq!(bus.send(Note(1)), Ok(1));
    assert_eq!(bus.send(Note(2)), Ok(1));
    assert_eq!(bus.send(Note(3)), Ok(1));
    let mut late = bus.subscribe();
    assert_eq!(bus.send(Note(4)), Ok(2));
    assert_eq!(late.try_recv(), RecvOutcome::Event(Note(4)));
    assert_eq!(late.try_recv(), RecvOutcome::Empty);
    assert_eq!(early.try_recv(), RecvOutcome::Event(Note(1)));
    assert_eq!(early.try_recv(), RecvOutcome::Event(Note(2)));
    assert_eq!(early.try_recv(), RecvOutcome::Event(Note(3)));
    assert_eq!(early.try_recv(), RecvOutcome::Event(Note(4)));
}

#[test]
fn slow_subscriber_lags_instead_of_blocking_the_publisher() {
    let mut bus: EventBus<Note> = EventBus::new(1);
    let mut sub = bus.subscribe();
    assert_eq!(bus.send(Note(1)), Ok(1));
    assert_eq!(bus.send(Note(2)), Ok(1));
    assert_eq!(sub.try_recv(), RecvOutcome::Lagged(1));
    assert_eq!(sub.try_recv(), RecvOutcome::Event(Note(2)));
}

#[test]
fn closed_bus_reports_closed_to_subscribers() {
    let mut bus: EventBus<Note> = EventBus::new(4);
    let mut sub = bus.subscribe();
    assert_eq!(bus.send(Note(9)), Ok(1));
    drop(bus);
    assert_eq!(sub.try_recv(), RecvOutcome::Event(Note(9)));
    assert_eq!(sub.try_recv(), RecvOutcome::Closed);
}
