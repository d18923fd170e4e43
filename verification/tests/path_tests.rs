use actor_system::ActorPath;

#[test]
fn path_keeps_its_string() {
    let path = ActorPath::new("/some/actor");
    assert_eq!(path.as_str(), "/some/actor");
}

#[test]
fn paths_compare_by_value() {
    let a = ActorPath::new("/some/actor");
    let b = ActorPath::new("/some/actor");
    let c = ActorPath::new("/other/actor");
    assert!(a == b);
    assert!(a != c);
}

#[test]
fn cloned_path_equals_the_original() {
    let a = ActorPath::new("/some/actor");
    let b = a.clone();
    assert!(a == b);
    assert_eq!(b.as_str(), "/some/actor");
}
