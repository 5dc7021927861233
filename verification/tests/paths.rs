use rpy::path::{find_last_separator, join_path, parent_dir, CONFIG_FILE};

#[test]
fn joining_a_fragment_to_a_directory() {
    assert_eq!(join_path("/a", "b"), "/a/b");
    assert_eq!(join_path("/a/", "b"), "/a/b");
    assert_eq!(join_path("/a", "b/c"), "/a/b/c");
    assert_eq!(join_path("/", "x"), "/x");
    assert_eq!(join_path("a", "b"), "a/b");
}

#[test]
fn joining_an_absolute_fragment_replaces_the_directory() {
    assert_eq!(join_path("/a", "/b"), "/b");
    assert_eq!(join_path("", "/b"), "/b");
    assert_eq!(join_path("/a/b", "/"), "/");
}

#[test]
fn joining_with_an_empty_side() {
    assert_eq!(join_path("", "b"), "b");
    assert_eq!(join_path("/a", ""), "/a/");
    assert_eq!(join_path("/a/", ""), "/a/");
    assert_eq!(join_path("", ""), "");
}

#[test]
fn the_directory_that_holds_a_path() {
    assert_eq!(parent_dir("/a/b"), Some("/a".to_string()));
    assert_eq!(parent_dir("/a/b/c.py"), Some("/a/b".to_string()));
    assert_eq!(parent_dir("/a"), Some("/".to_string()));
    assert_eq!(parent_dir("a/b"), Some("a".to_string()));
    assert_eq!(parent_dir("a"), Some("".to_string()));
    assert_eq!(parent_dir("/ä/ö"), Some("/ä".to_string()));
    assert_eq!(parent_dir("/a/b/"), Some("/a/b".to_string()));
}

#[test]
fn the_root_and_the_empty_path_have_no_parent() {
    assert_eq!(parent_dir("/"), None);
    assert_eq!(parent_dir(""), None);
}

#[test]
fn where_the_last_separator_stands() {
    assert_eq!(find_last_separator(""), None);
    assert_eq!(find_last_separator("abc"), None);
    assert_eq!(find_last_separator("/"), Some(0));
    assert_eq!(find_last_separator("/abc"), Some(0));
    assert_eq!(find_last_separator("a/b/c"), Some(3));
    assert_eq!(find_last_separator("ä/ö/"), Some(3));
}

#[test]
fn a_file_in_a_directory_lies_in_it() {
    for dir in ["/", "/a", "/a/b", "rel", "rel/deeper"] {
        assert_eq!(parent_dir(&join_path(dir, CONFIG_FILE)), Some(dir.to_string()));
    }
    assert_eq!(CONFIG_FILE, "pyproject.toml");
}
