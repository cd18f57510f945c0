use ws_file_executor::paths::{artifact_dir, join, stored_path, SEPARATOR};

#[test]
fn separator_is_a_slash() {
    assert_eq!(SEPARATOR, '/');
}

#[test]
fn join_puts_one_separator_between() {
    assert_eq!(join("a", "b"), "a/b");
    assert_eq!(join("scripts", "x.sh"), "scripts/x.sh");
}

#[test]
fn join_keeps_empty_components() {
    assert_eq!(join("", "b"), "/b");
    assert_eq!(join("a", ""), "a/");
    assert_eq!(join("", ""), "/");
}

#[test]
fn join_adds_nothing_to_separators_already_there() {
    assert_eq!(join("a/", "/b"), "a///b");
}

#[test]
fn join_keeps_text_beyond_ascii() {
    assert_eq!(join("überweisung", "日本語.txt"), "überweisung/日本語.txt");
}

#[test]
fn artifact_dir_is_root_then_handle() {
    assert_eq!(artifact_dir("test-stage/uploads", ".id345"), "test-stage/uploads/.id345");
}

#[test]
fn stored_path_is_root_handle_and_relative_path() {
    assert_eq!(
        stored_path("test-stage/uploads", ".id123", "ignore/me"),
        "test-stage/uploads/.id123/ignore/me"
    );
}

#[test]
fn stored_path_lies_inside_the_artifact_dir() {
    let dir = artifact_dir("/srv/uploads", "h1");
    let path = stored_path("/srv/uploads", "h1", "scripts/x.sh");
    assert!(path.starts_with(&format!("{dir}/")));
    assert_eq!(path.len(), dir.len() + 1 + "scripts/x.sh".len());
}

#[test]
fn different_handles_have_different_dirs() {
    assert_ne!(artifact_dir("uploads", "h1"), artifact_dir("uploads", "h2"));
    assert_eq!(artifact_dir("uploads", "h1"), artifact_dir("uploads", "h1"));
}
