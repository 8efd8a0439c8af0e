use parknotes::path::{full_path_text, PathParts};

fn steps(names: &[&str]) -> PathParts {
    PathParts::new(names.iter().map(|n| n.to_string()).collect())
}

#[test]
fn display_joins_the_components_with_slashes() {
    assert_eq!(steps(&["a", "b", "c.md"]).display(), "a/b/c.md");
    assert_eq!(steps(&["a.md"]).display(), "a.md");
    assert_eq!(PathParts::empty().display(), "");
    assert_eq!(steps(&["", "x"]).display(), "/x");
}

#[test]
fn starts_with_compares_whole_components() {
    let path = steps(&["foo", "bar", "n.md"]);
    assert!(path.starts_with(&steps(&["foo"])));
    assert!(path.starts_with(&steps(&["foo", "bar"])));
    assert!(path.starts_with(&path.clone()));
    assert!(path.starts_with(&PathParts::empty()));
    assert!(!path.starts_with(&steps(&["fo"])));
    assert!(!path.starts_with(&steps(&["bar"])));
    assert!(!path.starts_with(&steps(&["foo", "bar", "n.md", "x"])));
    assert!(!steps(&["foo2", "a"]).starts_with(&steps(&["foo"])));
}

#[test]
fn is_under_asks_for_one_component_more() {
    let path = steps(&["foo", "bar"]);
    assert!(path.is_under(&steps(&["foo"])));
    assert!(path.is_under(&PathParts::empty()));
    assert!(!path.is_under(&path.clone()));
    assert!(!path.is_under(&steps(&["bar"])));
}

#[test]
fn strip_prefix_leaves_the_rest() {
    let path = steps(&["root", "p", "n.md"]);
    assert_eq!(path.strip_prefix(&steps(&["root"])), Some(steps(&["p", "n.md"])));
    assert_eq!(path.strip_prefix(&PathParts::empty()), Some(path.clone()));
    assert_eq!(path.strip_prefix(&path.clone()), Some(PathParts::empty()));
    assert_eq!(path.strip_prefix(&steps(&["p"])), None);
    assert_eq!(path.strip_prefix(&steps(&["roo"])), None);
}

#[test]
fn join_and_child_append_components() {
    assert_eq!(
        steps(&["a"]).join(&steps(&["b", "c"])),
        steps(&["a", "b", "c"])
    );
    assert_eq!(steps(&["a"]).join(&PathParts::empty()), steps(&["a"]));
    assert_eq!(steps(&["a"]).child("b"), steps(&["a", "b"]));
    assert_eq!(PathParts::empty().child("b"), steps(&["b"]));
}

#[test]
fn file_name_is_the_last_component() {
    assert_eq!(steps(&["a", "b.md"]).file_name(), Some(String::from("b.md")));
    assert_eq!(PathParts::empty().file_name(), None);
}

#[test]
fn same_as_compares_component_by_component() {
    assert!(steps(&["a", "b"]).same_as(&steps(&["a", "b"])));
    assert!(!steps(&["a", "b"]).same_as(&steps(&["a"])));
    assert!(!steps(&["a", "b"]).same_as(&steps(&["a", "c"])));
    assert!(!steps(&["a/b"]).same_as(&steps(&["a", "b"])));
    assert!(PathParts::empty().same_as(&PathParts::empty()));
    assert_eq!(steps(&["a", "b"]).len(), 2);
}

#[test]
fn full_path_puts_one_slash_between_root_and_rest() {
    assert_eq!(full_path_text("/r", &steps(&["p", "n.md"])), "/r/p/n.md");
    assert_eq!(full_path_text("/r/", &steps(&["p", "n.md"])), "/r/p/n.md");
    assert_eq!(full_path_text("/", &steps(&["n.md"])), "/n.md");
    assert_eq!(full_path_text("", &steps(&["p", "n.md"])), "p/n.md");
    assert_eq!(full_path_text("/r", &PathParts::empty()), "/r/");
    assert_eq!(full_path_text("ré", &steps(&["n"])), "ré/n");
}
