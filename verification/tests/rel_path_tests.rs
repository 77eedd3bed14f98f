use anytest::AnytestError;
use anytest::RelPath;

fn rel_path_error(root: &str, path: &str) -> AnytestError {
    RelPath::new(Some(root), path).unwrap_err()
}

#[test]
fn test_rel_path_new() {
    assert_eq!(
        rel_path_error("src/lib.rs", ""),
        AnytestError::InvalidRoot,
        "a file is not a directory"
    );

    assert_eq!(
        rel_path_error("/tmp/s0me_f0lDer", ""),
        AnytestError::InvalidRoot,
        "a missing directory is rejected"
    );

    assert_eq!(
        rel_path_error("src", "non_existent.rs"),
        AnytestError::PathNotFound
    );

    let elsewhere = RelPath::new(Some("tests"), "rel_path_tests.rs").unwrap();
    assert_eq!(
        rel_path_error("src", elsewhere.path().as_str()),
        AnytestError::PathEscapesRoot
    );

    let rel_path = RelPath::new(Some("src"), "lib.rs").unwrap();
    assert!(rel_path.root().ends_with("src"));
    assert!(rel_path.path().ends_with("src/lib.rs"));
    assert_eq!(rel_path.rel().as_str(), "lib.rs");
    assert_eq!(rel_path.rel_str(), "lib.rs");

    // a path already carrying the relative root is stripped and rejoined
    let rel_path = RelPath::new(Some("src"), "src/lib.rs").unwrap();
    assert!(rel_path.root().ends_with("src"));
    assert!(rel_path.path().ends_with("src/lib.rs"));
    assert_eq!(rel_path.rel().as_str(), "lib.rs");
}

#[test]
fn test_rel_path_absent_root_means_current_directory() {
    let rel_path = RelPath::new(None, "src/lib.rs").unwrap();
    assert!(rel_path.root().starts_with('/'));
    assert!(rel_path.path().ends_with("src/lib.rs"));
    assert_eq!(rel_path.rel().as_str(), "src/lib.rs");
}

#[test]
fn test_rel_path_roots_are_absolute() {
    let rel_path = RelPath::new(Some("src"), "lib.rs").unwrap();
    assert!(rel_path.root().starts_with('/'));
    assert!(rel_path.path().starts_with('/'));
}

#[test]
fn test_rel_path_round_trip() {
    // resolving (root, root.join(relative)) gives the same relative back
    let first = RelPath::new(Some("src"), "lib.rs").unwrap();
    let root = first.root().clone();

    let again = RelPath::new(Some(root.as_str()), first.path().as_str()).unwrap();
    assert_eq!(again.rel().as_str(), "lib.rs");
    assert_eq!(again.root().as_str(), root.as_str());

    let nested = RelPath::new(Some(root.as_str()), "registry/elixir.rs").unwrap();
    assert_eq!(nested.rel().as_str(), "registry/elixir.rs");
}

#[test]
fn test_rel_path_equal_to_root_escapes() {
    let first = RelPath::new(Some("src"), "lib.rs").unwrap();
    let root = first.root().clone();
    assert_eq!(
        RelPath::new(Some(root.as_str()), root.as_str()).unwrap_err(),
        AnytestError::PathEscapesRoot
    );
}

#[test]
fn test_rel_path_file() {
    let first = RelPath::new(Some("src"), "lib.rs").unwrap();
    let sibling = first.file("context.rs").unwrap();
    assert_eq!(sibling.rel().as_str(), "context.rs");
    assert_eq!(sibling.root().as_str(), first.root().as_str());
    assert_eq!(
        first.file("nope.rs").unwrap_err(),
        AnytestError::PathNotFound
    );
}
