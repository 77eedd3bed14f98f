use anytest::registry::elixir::exunit::is_mix;
use anytest::registry::elixir::ESpec;
use anytest::registry::elixir::ExUnit;
use anytest::registry::javascript::Jest;
use anytest::registry::python::Pytest;
use anytest::registry::ruby::RSpec;
use anytest::registry::rust::Cargotest;
use anytest::registry::zig::Zigtest;
use anytest::AnytestError;
use anytest::Context;
use anytest::Framework;
use anytest::Registry;

fn rs_context(line: Option<usize>) -> Context {
    Context::new(Some("tests"), "framework_tests.rs", line, None).unwrap()
}

#[test]
fn test_registry_finds_cargotest_for_rust_file() {
    let registry = Registry::new();
    let context = rs_context(None);
    let framework = registry.find(&context).unwrap();
    assert!(matches!(framework, Framework::Cargotest(_)));
}

#[test]
fn test_registry_rejects_unknown_file() {
    let registry = Registry::new();
    // the registry subdirectory matches no framework's file pattern
    let context = Context::new(Some("src"), "registry", None, None).unwrap();
    assert_eq!(
        registry.find(&context).unwrap_err(),
        AnytestError::NoFrameworkFound
    );
}

#[test]
fn test_is_suitable_for() {
    let context = rs_context(None);
    assert!(Framework::Cargotest(Cargotest::default()).is_suitable_for(&context));
    assert!(!Framework::ESpec(ESpec::default()).is_suitable_for(&context));
    assert!(!Framework::Jest(Jest::default()).is_suitable_for(&context));
    assert!(!Framework::Pytest(Pytest::default()).is_suitable_for(&context));
    assert!(!Framework::RSpec(RSpec::default()).is_suitable_for(&context));
    assert!(!Framework::Zigtest(Zigtest::default()).is_suitable_for(&context));
}

#[test]
fn test_espec_executable() {
    let context = rs_context(None);
    let framework = Framework::ESpec(ESpec::default());
    assert_eq!(
        framework.executable(&context),
        vec!["mix".to_string(), "espec".to_string()]
    );
}

#[test]
fn test_exunit_outside_mix_project() {
    let context = rs_context(Some(3));
    assert!(!is_mix(&context));

    let exunit = ExUnit::default();
    assert_eq!(exunit.build_executable(&context), vec!["elixir".to_string()]);
    assert_eq!(
        exunit.build_suite_position_args(&context),
        vec!["*.exs".to_string()]
    );
    // outside a Mix project the line scope degrades to the file scope
    assert_eq!(
        exunit.build_line_position_args(&context),
        vec!["framework_tests.rs".to_string()]
    );
}

#[test]
fn test_zigtest_position_args() {
    let context = rs_context(Some(3));
    let zig = Zigtest::default();
    assert_eq!(
        zig.build_suite_position_args(&context),
        vec!["build".to_string(), "test".to_string()]
    );
    assert_eq!(
        zig.build_file_position_args(&context),
        vec!["test".to_string(), "framework_tests.rs".to_string()]
    );

    let lines = vec![
        "const std = @import(\"std\");".to_string(),
        "test \"numbers 2\" {".to_string(),
        "    try expect(true);".to_string(),
    ];
    let args = zig.build_line_position_args(&context, &lines).unwrap();
    assert_eq!(
        args,
        vec![
            "test".to_string(),
            "framework_tests.rs".to_string(),
            "--test-filter".to_string(),
            "'numbers 2'".to_string(),
        ]
    );

    // no test block above the cursor: plain file arguments
    let plain = vec!["const x = 1;".to_string()];
    let context_line1 = rs_context(Some(1));
    let args = zig.build_line_position_args(&context_line1, &plain).unwrap();
    assert_eq!(
        args,
        vec!["test".to_string(), "framework_tests.rs".to_string()]
    );
}

#[test]
fn test_pytest_line_position_args() {
    let context = rs_context(Some(2));
    let pytest = Pytest::default();
    let lines = vec![
        "class TestClass:".to_string(),
        "    def test_method(self):".to_string(),
    ];
    let args = pytest.build_line_position_args(&context, &lines).unwrap();
    assert_eq!(
        args,
        vec!["framework_tests.rs::TestClass::test_method".to_string()]
    );

    // no nearest test: the positional argument stays the bare file
    let plain = vec!["x = 1".to_string()];
    let context_line1 = rs_context(Some(1));
    let args = pytest
        .build_line_position_args(&context_line1, &plain)
        .unwrap();
    assert_eq!(args, vec!["framework_tests.rs".to_string()]);
}

#[test]
fn test_pytest_nested_classes() {
    let pytest = Pytest::default();
    let lines = vec![
        "class TestClass:".to_string(),
        "    class TestNestedClass:".to_string(),
        "        def test_nestedclass_method(self):".to_string(),
    ];

    // on a class line only the namespace chain is named
    let args = pytest
        .build_line_position_args(&rs_context(Some(2)), &lines)
        .unwrap();
    assert_eq!(
        args,
        vec!["framework_tests.rs::TestClass::TestNestedClass".to_string()]
    );

    // on the method line the full chain plus the test is named
    let args = pytest
        .build_line_position_args(&rs_context(Some(3)), &lines)
        .unwrap();
    assert_eq!(
        args,
        vec!["framework_tests.rs::TestClass::TestNestedClass::test_nestedclass_method".to_string()]
    );
}

#[test]
fn test_jest_line_position_args() {
    let context = rs_context(Some(2));
    let jest = Jest::default();
    let lines = vec![
        "describe('Suite', () => {".to_string(),
        "  it('adds', () => {".to_string(),
    ];
    let args = jest.build_line_position_args(&context, &lines).unwrap();
    assert_eq!(
        args,
        vec![
            "-t".to_string(),
            "^Suite adds$".to_string(),
            "--".to_string(),
            "framework_tests.rs".to_string(),
        ]
    );

    // nothing to name: only the end-of-options marker and the file
    let plain = vec!["const x = 1;".to_string()];
    let context_line1 = rs_context(Some(1));
    let args = jest.build_line_position_args(&context_line1, &plain).unwrap();
    assert_eq!(
        args,
        vec!["--".to_string(), "framework_tests.rs".to_string()]
    );
}

#[test]
fn test_jest_file_position_args() {
    let context = rs_context(None);
    let jest = Jest::default();
    assert_eq!(
        jest.build_file_position_args(&context),
        vec!["--".to_string(), "framework_tests.rs".to_string()]
    );
}

#[test]
fn test_cargotest_file_position_args() {
    let context = rs_context(None);
    let cargo = Cargotest::default();
    // a single component with its extension dropped leaves no module path
    assert_eq!(
        cargo.build_file_position_args(&context).unwrap(),
        Vec::<String>::new()
    );
}

#[test]
fn test_cargotest_line_position_args_plain_fn() {
    let context = rs_context(Some(2));
    let cargo = Cargotest::default();
    let lines = vec!["#[test]".to_string(), "fn test_x() {".to_string()];
    let args = cargo.build_line_position_args(&context, &lines).unwrap();
    assert_eq!(
        args,
        vec![
            "test_x".to_string(),
            "--".to_string(),
            "--exact".to_string(),
        ]
    );
}

#[test]
fn test_cargotest_line_position_args_in_mod() {
    let context = rs_context(Some(3));
    let cargo = Cargotest::default();
    let lines = vec![
        "mod tests {".to_string(),
        "    #[test]".to_string(),
        "    fn test_y() {".to_string(),
    ];
    let args = cargo.build_line_position_args(&context, &lines).unwrap();
    assert_eq!(
        args,
        vec![
            "tests::test_y".to_string(),
            "--".to_string(),
            "--exact".to_string(),
        ]
    );
}

#[test]
fn test_cargotest_line_no_test_attribute() {
    let context = rs_context(Some(1));
    let cargo = Cargotest::default();
    let lines = vec!["fn helper() {}".to_string()];
    let args = cargo.build_line_position_args(&context, &lines).unwrap();
    assert_eq!(args, Vec::<String>::new());
}

#[test]
fn test_framework_find_nearest_needs_line() {
    let context = rs_context(None);
    let framework = Framework::Cargotest(Cargotest::default());
    let lines: Vec<String> = vec![];
    assert_eq!(
        framework.find_nearest(&context, &lines).unwrap_err(),
        AnytestError::MissingLineNumber
    );
}

#[test]
fn test_default_position_args() {
    let context = rs_context(Some(4));
    let framework = Framework::RSpec(RSpec::default());
    let lines: Vec<String> = vec![];
    assert_eq!(
        framework.build_suite_position_args(&context).unwrap(),
        Vec::<String>::new()
    );
    assert_eq!(
        framework.build_file_position_args(&context).unwrap(),
        vec!["framework_tests.rs".to_string()]
    );
    assert_eq!(
        framework.build_line_position_args(&context, &lines).unwrap(),
        vec!["framework_tests.rs:4".to_string()]
    );
}

#[test]
fn test_rspec_executable_bare() {
    // no preloader, binstub or Gemfile under the test root: bare rspec
    let context = rs_context(None);
    let rspec = RSpec::default();
    assert_eq!(rspec.build_executable(&context), vec!["rspec".to_string()]);
}

#[test]
fn test_jest_executable_bare() {
    // no node_modules binstub under the test root: bare jest
    let context = rs_context(None);
    let jest = Jest::default();
    assert_eq!(jest.build_executable(&context), vec!["jest".to_string()]);
}
