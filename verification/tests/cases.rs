//! Test-case metadata: module path splitting, the TestCase contract on
//! the standard Test, and the outcome types.

use kunit::test::outcome::Termination;
use kunit::test::outcome::TestResult;
use kunit::test::Ignore;
use kunit::test::ShouldPanic;
use kunit::test::Test;
use kunit::test::TestCase;

#[test]
fn split_simple_path() {
    assert_eq!(kunit::split_module_path("a::b::c"), vec!["a", "b", "c"]);
    assert_eq!(kunit::split_module_path_len("a::b::c"), 3);
}

#[test]
fn split_single_part() {
    assert_eq!(kunit::split_module_path("alone"), vec!["alone"]);
    assert_eq!(kunit::split_module_path_len("alone"), 1);
}

#[test]
fn split_empty_path() {
    assert_eq!(kunit::split_module_path(""), vec![""]);
    assert_eq!(kunit::split_module_path_len(""), 1);
}

#[test]
fn split_takes_separators_from_the_left() {
    // Three colons split at the first pair; the stray colon stays.
    assert_eq!(kunit::split_module_path("a:::b"), vec!["a", ":b"]);
    assert_eq!(kunit::split_module_path_len("a:::b"), 2);
}

#[test]
fn split_trailing_and_leading_separators() {
    assert_eq!(kunit::split_module_path("a::"), vec!["a", ""]);
    assert_eq!(kunit::split_module_path("::a"), vec!["", "a"]);
    assert_eq!(kunit::split_module_path_len("a::"), 2);
    assert_eq!(kunit::split_module_path_len("::a"), 2);
}

fn sample_test() -> Test<()> {
    Test {
        name: "my_test".to_string(),
        modules: "my_crate::tests".to_string(),
        test: (),
        ignore: Ignore::No,
        should_panic: ShouldPanic::Yes,
    }
}

#[test]
fn test_case_qualified_name() {
    let t = sample_test();
    assert_eq!(t.qualified_name(), "my_crate::tests::my_test");
}

#[test]
fn test_case_name_is_the_tail() {
    let t = sample_test();
    assert_eq!(t.name(), "my_test");
}

#[test]
fn test_case_modules_is_the_head() {
    let t = sample_test();
    assert_eq!(t.modules(), Some("my_crate::tests".to_string()));
}

#[test]
fn test_case_flags() {
    let t = sample_test();
    assert!(matches!(t.ignore(), Ignore::No));
    assert!(matches!(t.should_panic(), ShouldPanic::Yes));
}

#[test]
fn test_case_name_splits_at_the_rightmost_separator() {
    let t = Test {
        name: "inner::leaf".to_string(),
        modules: "root".to_string(),
        test: (),
        ignore: Ignore::No,
        should_panic: ShouldPanic::No,
    };
    assert_eq!(t.qualified_name(), "root::inner::leaf");
    assert_eq!(t.name(), "leaf");
    assert_eq!(t.modules(), Some("root::inner".to_string()));
}

#[test]
fn termination_unit_passes() {
    assert!(().terminate());
}

#[test]
fn termination_ok_passes() {
    let r: Result<(), u8> = Ok(());
    assert!(r.terminate());
}

#[test]
fn termination_err_faults() {
    let r: Result<(), u8> = Err(7);
    assert!(!r.terminate());
}

#[test]
fn termination_nested_result() {
    let r: Result<Result<(), u8>, u8> = Ok(Err(1));
    assert!(!r.terminate());
}

#[test]
fn test_result_predicates() {
    assert!(TestResult::Success.is_success());
    assert!(!TestResult::Success.is_ignore());
    assert!(!TestResult::Success.is_failure());
    assert!(TestResult::Ignore.is_ignore());
    assert!(TestResult::Failure.is_failure());
    assert!(!TestResult::Failure.is_success());
}
