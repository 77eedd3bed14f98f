use anytest::strutil::drop_extension;
use anytest::strutil::indent_width;
use anytest::strutil::join_with;
use anytest::strutil::split_slash_str;
use anytest::strutil::str_contains;
use anytest::strutil::str_eq;
use anytest::strutil::str_has_prefix;
use anytest::strutil::str_is_absolute;
use anytest::strutil::strip_path_prefix;
use anytest::strutil::usize_to_string;
use anytest::utils;
use anytest::utils::eoo;
use anytest::utils::is_executable;
use anytest::utils::quote;

#[test]
fn test_usize_to_string() {
    assert_eq!(usize_to_string(0), "0");
    assert_eq!(usize_to_string(7), "7");
    assert_eq!(usize_to_string(10), "10");
    assert_eq!(usize_to_string(42), "42");
    assert_eq!(usize_to_string(1234567), "1234567");
}

#[test]
fn test_indent_width() {
    assert_eq!(indent_width(""), 0);
    assert_eq!(indent_width("code"), 0);
    assert_eq!(indent_width("  two"), 2);
    // a tab counts as one unit, with no tab-width normalization
    assert_eq!(indent_width("\t\t x"), 3);
    assert_eq!(indent_width("   "), 3);
}

#[test]
fn test_str_helpers() {
    assert!(str_eq("abc", "abc"));
    assert!(!str_eq("abc", "abd"));
    assert!(str_has_prefix("abcdef", "abc"));
    assert!(!str_has_prefix("ab", "abc"));
    assert!(str_is_absolute("/usr/bin"));
    assert!(!str_is_absolute("usr/bin"));
    assert!(!str_is_absolute(""));
}

#[test]
fn test_strip_path_prefix() {
    assert_eq!(
        strip_path_prefix("/a/b/c.rs", "/a").unwrap(),
        "b/c.rs".to_string()
    );
    assert!(strip_path_prefix("/a", "/a").is_none());
    assert!(strip_path_prefix("/ab/c", "/a").is_none());
    assert!(strip_path_prefix("/b/c", "/a").is_none());
}

#[test]
fn test_split_and_join() {
    assert_eq!(
        split_slash_str("a/b/c"),
        vec!["a".to_string(), "b".to_string(), "c".to_string()]
    );
    assert_eq!(split_slash_str("solo"), vec!["solo".to_string()]);

    let parts = vec!["a".to_string(), "b".to_string(), "c".to_string()];
    assert_eq!(join_with(&parts, "::"), "a::b::c");
    assert_eq!(join_with(&vec!["one".to_string()], "::"), "one");
    assert_eq!(join_with(&Vec::new(), "::"), "");
}

#[test]
fn test_drop_extension() {
    assert_eq!(drop_extension("tests/test_foo.rs"), "tests/test_foo");
    assert_eq!(drop_extension("a/b.c.d"), "a/b.c");
    assert_eq!(drop_extension("no_ext"), "no_ext");
    // a leading dot names a hidden file, not an extension
    assert_eq!(drop_extension("dir/.hidden"), "dir/.hidden");
    assert_eq!(drop_extension("dir.ext/plain"), "dir.ext/plain");
}

#[test]
fn test_str_contains() {
    assert!(str_contains("#[tokio::test]", "#["));
    assert!(!str_contains("fn test()", "#["));
    assert!(str_contains("anything", ""));
}

#[test]
fn test_concat_quote_eoo() {
    assert_eq!(
        utils::concat(
            vec!["a".to_string(), "b".to_string()],
            vec!["c".to_string()]
        ),
        vec!["a".to_string(), "b".to_string(), "c".to_string()]
    );
    assert_eq!(quote("numbers 2"), "'numbers 2'");
    assert_eq!(eoo(), "--");
}

#[test]
fn test_is_executable_misses_nonsense() {
    assert!(!is_executable("surely_not_a_real_binary_name_0x42"));
}
