use actor_system::ActorError;
use actor_system::ActorPath;
use actor_system::ActorSystem;
use actor_system::EventBus;
use actor_system::SystemEvent;

#[derive(Clone, Debug, PartialEq)]
struct TestEvent(String);

impl SystemEvent for TestEvent {}

fn fresh_system() -> ActorSystem<TestEvent, u64> {
    let bus = EventBus::new(1000);
    ActorSystem::new("test", bus)
}

#[test]
fn system_keeps_its_name() {
    let system = fresh_system();
    assert_eq!(system.get_name(), "test");
}

#[test]
fn create_registers_the_actor() {
    let mut system = fresh_system();
    let path = ActorPath::new("/some/actor");
    let created = system.create_actor(path, 1, 10u64);
    assert_eq!(created, Ok(()));
    assert_eq!(system.actor_count(), 1);
    let found = system.get_actor(&ActorPath::new("/some/actor"), 1);
    assert_eq!(found.copied(), Some(10u64));
}

#[test]
fn second_create_at_live_path_fails_and_leaves_original() {
    let mut system = fresh_system();
    let created = system.create_actor(ActorPath::new("/some/actor"), 1, 10u64);
    assert_eq!(created, Ok(()));
    let second = system.create_actor(ActorPath::new("/some/actor"), 2, 20u64);
    assert_eq!(second, Err(ActorError::AlreadyExists));
    assert_eq!(system.actor_count(), 1);
    let original = system.get_actor(&ActorPath::new("/some/actor"), 1);
    assert_eq!(original.copied(), Some(10u64));
}

#[test]
fn lookup_under_wrong_tag_is_a_silent_miss() {
    let mut system = fresh_system();
    let created = system.create_actor(ActorPath::new("/some/actor"), 1, 10u64);
    assert_eq!(created, Ok(()));
    let wrong_type = system.get_actor(&ActorPath::new("/some/actor"), 2);
    assert_eq!(wrong_type, None);
    let missing = system.get_actor(&ActorPath::new("/other/actor"), 1);
    assert_eq!(missing, None);
}

#[test]
fn stopped_path_is_reusable() {
    let mut system = fresh_system();
    let created = system.create_actor(ActorPath::new("/some/actor"), 1, 10u64);
    assert_eq!(created, Ok(()));
    system.stop_actor(&ActorPath::new("/some/actor"));
    assert_eq!(system.actor_count(), 0);
    assert_eq!(system.get_actor(&ActorPath::new("/some/actor"), 1), None);
    let again = system.create_actor(ActorPath::new("/some/actor"), 3, 30u64);
    assert_eq!(again, Ok(()));
    let found = system.get_actor(&ActorPath::new("/some/actor"), 3);
    assert_eq!(found.copied(), Some(30u64));
}

#[test]
fn stop_keeps_unrelated_actors() {
    let mut system = fresh_system();
    assert_eq!(system.create_actor(ActorPath::new("/a"), 1, 1u64), Ok(()));
    assert_eq!(system.create_actor(ActorPath::new("/b"), 1, 2u64), Ok(()));
    system.stop_actor(&ActorPath::new("/a"));
    assert_eq!(system.actor_count(), 1);
    assert_eq!(system.get_actor(&ActorPath::new("/b"), 1).copied(), Some(2u64));
}

#[test]
fn publish_without_subscribers_returns_normally() {
    let mut system = fresh_system();
    system.publish(TestEvent("nobody listens".to_string()));
    system.publish(TestEvent("still nobody".to_string()));
    assert_eq!(system.actor_count(), 0);
}

#[test]
fn subscriber_observes_events_published_after_it() {
    let mut system = fresh_system();
    let mut events = system.events();
    system.publish(TestEvent("hello".to_string()));
    let got = events.try_recv();
    assert_eq!(got, actor_system::RecvOutcome::Event(TestEvent("hello".to_string())));
    assert_eq!(events.try_recv(), actor_system::RecvOutcome::Empty);
}
