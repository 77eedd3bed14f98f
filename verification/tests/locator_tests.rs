use anytest::line_range::LineBound;
use anytest::line_range::LRange;
use anytest::Context;
use anytest::NamedPattern;
use anytest::Nearest;

fn locate(
    test_pattern: &str,
    namespace_pattern: &str,
    start: usize,
    end: usize,
    lines: &Vec<String>,
) -> Nearest {
    let test_patterns = vec![NamedPattern::new(test_pattern, None)];
    let namespace_patterns = if namespace_pattern.is_empty() {
        vec![]
    } else {
        vec![NamedPattern::new(namespace_pattern, None)]
    };
    let range =
        LRange::try_from_range(LineBound::Included(start), LineBound::Included(end)).unwrap();
    Context::new(Some("src"), "lib.rs", None, None)
        .unwrap()
        .find_nearest(&test_patterns, &namespace_patterns, lines, range)
        .unwrap()
}

#[test]
fn test_simple_nested_match() {
    // a test nested in one namespace: both are found, the line is the test's
    let lines = vec![
        "class Foo".to_string(),
        "  def test_bar".to_string(),
        "  end".to_string(),
        "end".to_string(),
    ];
    let nearest = locate(r"def (test_\w+)", r"class (\w+)", 2, 1, &lines);

    assert_eq!(nearest.tests(), &vec!["test_bar".to_string()]);
    assert_eq!(nearest.namespaces(), &vec!["Foo".to_string()]);
    assert_eq!(nearest.line_nr(), Some(2));
}

#[test]
fn test_sibling_tests_one_depth() {
    // two sibling tests at one indentation with no intervening namespace:
    // both appear, nearest first, and the line stays at the nearest one
    let lines = vec![
        "def test_first".to_string(),
        "def test_second".to_string(),
    ];
    let nearest = locate(r"def (test_\w+)", "", 2, 1, &lines);

    assert_eq!(
        nearest.tests(),
        &vec!["test_second".to_string(), "test_first".to_string()]
    );
    assert_eq!(nearest.line_nr(), Some(2));
}

#[test]
fn test_sibling_run_ends_at_namespace() {
    // a namespace between two test declarations ends the sibling run:
    // only the tests below it are captured
    let lines = vec![
        "  def test_far".to_string(),
        "class Break".to_string(),
        "  def test_a".to_string(),
        "  def test_b".to_string(),
    ];
    let nearest = locate(r"def (test_\w+)", r"class (\w+)", 4, 1, &lines);

    assert_eq!(
        nearest.tests(),
        &vec!["test_b".to_string(), "test_a".to_string()]
    );
    assert_eq!(nearest.namespaces(), &vec!["Break".to_string()]);
    assert_eq!(nearest.line_nr(), Some(4));
}

#[test]
fn test_no_test_above_cursor() {
    let lines = vec![
        "# a comment".to_string(),
        "x = 1".to_string(),
        "puts x".to_string(),
    ];
    let nearest = locate(r"def (test_\w+)", r"class (\w+)", 3, 1, &lines);

    assert!(nearest.tests().is_empty());
    assert!(!nearest.has_tests());
    assert_eq!(nearest.line_nr(), None);
}

#[test]
fn test_namespace_chain_outer_to_inner() {
    let lines = vec![
        "class Outer".to_string(),
        "  class Inner".to_string(),
        "    def test_deep".to_string(),
    ];
    let nearest = locate(r"def (test_\w+)", r"class (\w+)", 3, 1, &lines);

    assert_eq!(nearest.tests(), &vec!["test_deep".to_string()]);
    assert_eq!(
        nearest.namespaces(),
        &vec!["Outer".to_string(), "Inner".to_string()]
    );
    assert_eq!(nearest.line_nr(), Some(3));
}

#[test]
fn test_sibling_scope_namespaces_cleared() {
    // the namespace found first belongs to a scope declared after the
    // shallower test above it: accepting the test discards it
    let lines = vec![
        "def test_top".to_string(),
        "  class Sibling".to_string(),
    ];
    let nearest = locate(r"def (\w+)", r"class (\w+)", 2, 1, &lines);

    assert_eq!(nearest.tests(), &vec!["test_top".to_string()]);
    assert_eq!(nearest.namespaces(), &Vec::<String>::new());
    assert_eq!(nearest.line_nr(), Some(1));
}

#[test]
fn test_deeper_namespace_not_accepted() {
    // a namespace at or below the last accepted indentation is skipped
    let lines = vec![
        "class Outer".to_string(),
        "    class TooDeep".to_string(),
        "  def test_x".to_string(),
    ];
    let nearest = locate(r"def (test_\w+)", r"class (\w+)", 3, 1, &lines);

    assert_eq!(nearest.tests(), &vec!["test_x".to_string()]);
    assert_eq!(nearest.namespaces(), &vec!["Outer".to_string()]);
}

#[test]
fn test_malformed_pattern_never_matches() {
    // a pattern that does not compile degrades to "never matches"
    let lines = vec!["def test_a".to_string()];
    let nearest = locate(r"(unclosed", "", 1, 1, &lines);
    assert!(nearest.tests().is_empty());
    assert_eq!(nearest.line_nr(), None);
}

#[test]
fn test_named_pattern_find() {
    let pattern = NamedPattern::new(r"def (test_\w+)", Some("ruby"));
    let (capture, label) = pattern.find("  def test_add").unwrap();
    assert_eq!(capture, "test_add");
    assert_eq!(label, Some("ruby".to_string()));

    assert!(pattern.find("class Foo").is_none());

    let unnamed = NamedPattern::new(r"def (test_\w+)", None);
    let (capture, label) = unnamed.find("def test_x").unwrap();
    assert_eq!(capture, "test_x");
    assert_eq!(label, None);

    // a match without a first capture group yields the empty capture
    let groupless = NamedPattern::new(r"def test_\w+", None);
    let (capture, _) = groupless.find("def test_x").unwrap();
    assert_eq!(capture, "");
}

#[test]
fn test_first_pattern_wins() {
    let test_patterns = vec![
        NamedPattern::new(r"def (test_\w+)", None),
        NamedPattern::new(r"def (\w+)", None),
    ];
    let namespace_patterns = vec![];
    let lines = vec!["def test_both".to_string()];
    let range = LRange::try_from_range(LineBound::Included(1), LineBound::Included(1)).unwrap();
    let nearest = Context::new(Some("src"), "lib.rs", None, None)
        .unwrap()
        .find_nearest(&test_patterns, &namespace_patterns, &lines, range)
        .unwrap();
    assert_eq!(nearest.tests(), &vec!["test_both".to_string()]);
}
