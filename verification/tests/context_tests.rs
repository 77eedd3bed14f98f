use anytest::line_range::LineBound;
use anytest::line_range::LRange;
use anytest::AnytestError;
use anytest::Context;
use anytest::NamedPattern;
use anytest::Nearest;
use anytest::Scope;

fn get_scope(line: Option<usize>, scope: Option<Scope>) -> Scope {
    let context = Context::new(Some("src"), "lib.rs", line, scope).unwrap();
    context.scope().clone()
}

#[test]
fn test_context_new() {
    assert!(matches!(get_scope(Some(123), None), Scope::Line));
    assert!(matches!(
        get_scope(Some(123), Some(Scope::Suite)),
        Scope::Suite
    ));
    assert!(matches!(get_scope(None, None), Scope::File));
}

fn ruby_lines() -> Vec<String> {
    vec![
        "class TestClass".to_string(),
        "  def test_method".to_string(),
        "  end".to_string(),
        "end".to_string(),
    ]
}

fn find_nearest(
    test_patterns: &Vec<NamedPattern>,
    namespace_patterns: &Vec<NamedPattern>,
    start: usize,
    end: usize,
    lines: &Vec<String>,
) -> Nearest {
    let range =
        LRange::try_from_range(LineBound::Included(start), LineBound::Included(end)).unwrap();
    Context::new(Some("src"), "lib.rs", None, None)
        .unwrap()
        .find_nearest(test_patterns, namespace_patterns, lines, range)
        .unwrap()
}

#[test]
fn test_content_find_nearest() {
    let test_patterns = vec![NamedPattern::new(r"^\s*def\s+(test_\w+)", None)];
    let namespace_patterns = vec![NamedPattern::new(r"^\s*(?:class|module)\s+(\S+)", None)];
    let nearest = find_nearest(&test_patterns, &namespace_patterns, 2, 1, &ruby_lines());

    assert_eq!(nearest.tests(), &vec!["test_method".to_string()]);
    assert_eq!(nearest.namespaces(), &vec!["TestClass".to_string()]);
    assert_eq!(nearest.line_nr(), Some(2));
}

#[test]
fn test_find_nearest_empty_patterns_fail() {
    let test_patterns: Vec<NamedPattern> = vec![];
    let namespace_patterns = vec![NamedPattern::new(r"^\s*(?:class|module)\s+(\S+)", None)];
    let range = LRange::try_from_range(LineBound::Included(2), LineBound::Included(1)).unwrap();
    let err = Context::new(Some("src"), "lib.rs", None, None)
        .unwrap()
        .find_nearest(&test_patterns, &namespace_patterns, &ruby_lines(), range)
        .unwrap_err();
    assert_eq!(err, AnytestError::EmptyPatternSet);
}

#[test]
fn test_find_nearest_idempotent() {
    let test_patterns = vec![NamedPattern::new(r"^\s*def\s+(test_\w+)", None)];
    let namespace_patterns = vec![NamedPattern::new(r"^\s*(?:class|module)\s+(\S+)", None)];
    let lines = ruby_lines();
    let first = find_nearest(&test_patterns, &namespace_patterns, 2, 1, &lines);
    let second = find_nearest(&test_patterns, &namespace_patterns, 2, 1, &lines);

    assert_eq!(first.tests(), second.tests());
    assert_eq!(first.namespaces(), second.namespaces());
    assert_eq!(first.line_nr(), second.line_nr());
}

#[test]
fn test_line_nr_or_default() {
    let context = Context::new(Some("src"), "lib.rs", Some(42), None).unwrap();
    assert_eq!(context.line_nr(), Some(42));
    assert_eq!(context.line_nr_or_default(), 42);

    let context = Context::new(Some("src"), "lib.rs", None, None).unwrap();
    assert_eq!(context.line_nr(), None);
    assert_eq!(context.line_nr_or_default(), 1);
}

#[test]
fn test_rel_full() {
    let context = Context::new(Some("src"), "lib.rs", Some(12), None).unwrap();
    assert_eq!(context.rel_full(), "lib.rs:12");

    let context = Context::new(Some("src"), "lib.rs", None, None).unwrap();
    assert_eq!(context.rel_full(), "lib.rs:1");
}

#[test]
fn test_find_file() {
    let context = Context::new(Some("src"), "lib.rs", None, None).unwrap();
    let found = context.find_file("context.rs").unwrap();
    assert_eq!(found.rel().as_str(), "context.rs");
    assert!(context.find_file("no_such_file.rs").is_none());
}
