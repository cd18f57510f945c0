use ws_file_executor::Registry;

fn pair(handle: &str, path: &str) -> (String, String) {
    (handle.to_owned(), path.to_owned())
}

#[test]
fn new_registry_has_no_entries() {
    let registry = Registry::new();
    assert!(!registry.contains("h1"));
    assert_eq!(registry.lookup("h1"), None);
}

#[test]
fn registered_handle_is_found() {
    let mut registry = Registry::new();
    registry.register("h1", "uploads/h1/x.sh".to_owned());
    assert!(registry.contains("h1"));
    assert_eq!(registry.lookup("h1"), Some("uploads/h1/x.sh".to_owned()));
    assert!(!registry.contains("h2"));
}

#[test]
fn lookup_leaves_the_entry() {
    let mut registry = Registry::new();
    registry.register("h1", "path".to_owned());
    assert_eq!(registry.lookup("h1"), Some("path".to_owned()));
    assert_eq!(registry.lookup("h1"), Some("path".to_owned()));
}

#[test]
fn register_overwrites_an_earlier_entry() {
    let mut registry = Registry::new();
    registry.register("h1", "first".to_owned());
    registry.register("h1", "second".to_owned());
    assert_eq!(registry.consume("h1"), Some("second".to_owned()));
    assert_eq!(registry.consume("h1"), None);
}

#[test]
fn consume_returns_the_path_and_removes_the_entry() {
    let mut registry = Registry::new();
    registry.register("h1", "uploads/h1/x.sh".to_owned());
    assert_eq!(registry.consume("h1"), Some("uploads/h1/x.sh".to_owned()));
    assert!(!registry.contains("h1"));
}

#[test]
fn second_consume_finds_nothing() {
    let mut registry = Registry::new();
    registry.register("h1", "path".to_owned());
    assert!(registry.consume("h1").is_some());
    assert_eq!(registry.consume("h1"), None);
    assert_eq!(registry.consume("h1"), None);
}

#[test]
fn consume_of_an_unknown_handle_changes_nothing() {
    let mut registry = Registry::new();
    registry.register("h1", "path-one".to_owned());
    assert_eq!(registry.consume("bogus-handle"), None);
    assert_eq!(registry.lookup("h1"), Some("path-one".to_owned()));
}

#[test]
fn consumed_handle_stays_absent_while_others_come_and_go() {
    let mut registry = Registry::new();
    registry.register("h1", "path-one".to_owned());
    assert!(registry.consume("h1").is_some());
    registry.register("h2", "path-two".to_owned());
    registry.register("h3", "path-three".to_owned());
    assert!(registry.consume("h2").is_some());
    assert_eq!(registry.consume("h1"), None);
}

#[test]
fn other_handles_leave_an_entry_alone() {
    let mut registry = Registry::new();
    registry.register("h1", "path-one".to_owned());
    registry.register("h2", "path-two".to_owned());
    assert_eq!(registry.consume("h2"), Some("path-two".to_owned()));
    registry.register("h3", "path-three".to_owned());
    assert_eq!(registry.lookup("h1"), Some("path-one".to_owned()));
}

#[test]
fn consumed_handle_can_be_registered_anew() {
    let mut registry = Registry::new();
    registry.register("h1", "old".to_owned());
    assert!(registry.consume("h1").is_some());
    registry.register("h1", "new".to_owned());
    assert_eq!(registry.consume("h1"), Some("new".to_owned()));
}

#[test]
fn handles_are_compared_verbatim() {
    let mut registry = Registry::new();
    registry.register("Handle", "path".to_owned());
    assert!(!registry.contains("handle"));
    assert!(!registry.contains("Handle "));
    assert!(!registry.contains(""));
    assert!(registry.contains("Handle"));
}

#[test]
fn empty_handle_is_a_handle() {
    let mut registry = Registry::new();
    registry.register("", "path".to_owned());
    assert_eq!(registry.consume(""), Some("path".to_owned()));
    assert_eq!(registry.consume(""), None);
}

#[test]
fn from_pairs_of_nothing_is_empty() {
    let registry = Registry::from_pairs(&Vec::new());
    assert!(!registry.contains("h1"));
}

#[test]
fn from_pairs_holds_every_pair() {
    let registry = Registry::from_pairs(&vec![pair("h1", "path-one"), pair("h2", "path-two")]);
    assert_eq!(registry.lookup("h1"), Some("path-one".to_owned()));
    assert_eq!(registry.lookup("h2"), Some("path-two".to_owned()));
    assert_eq!(registry.lookup("h3"), None);
}

#[test]
fn from_pairs_keeps_the_later_of_two_pairs_with_one_handle() {
    let registry =
        Registry::from_pairs(&vec![pair("h1", "first"), pair("h2", "path-two"), pair("h1", "last")]);
    assert_eq!(registry.lookup("h1"), Some("last".to_owned()));
    assert_eq!(registry.lookup("h2"), Some("path-two".to_owned()));
}
