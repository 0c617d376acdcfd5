use rust_unit::Test;
use rust_unit::descriptor::TestName;
use rust_unit::descriptor::data::DataTestCommon;
use rust_unit::descriptor::data::make_data_tests;
use rust_unit::descriptor::simple::SimpleTest;
use rust_unit::error::TestError;
use rust_unit::error::TestResult;
use rust_unit::flatten_suites;
use rust_unit::once_suite;

type Row = (i32, i32, bool);

fn data_source() -> Vec<Row> {
    vec![
        (1, 1, true),
        (1, 2, false),
        (0, 0, true),
        (-1, -1, true),
        (-1, -2, false),
    ]
}

fn eq_check(row: Row) -> TestResult {
    let (a, b, res) = row;
    if (a == b) == res {
        Ok(())
    } else {
        Err(TestError {
            test: "eq".to_string(),
            location: "tests",
            reason: "equality mismatch",
            message: None,
        })
    }
}

#[test]
fn it_works() {
    let common = DataTestCommon::<Row, fn(Row) -> String, _>::new(
        TestName::Static("uwu"),
        &[],
        eq_check as fn(Row) -> TestResult,
    );
    let tests = make_data_tests(common, data_source());
    assert_eq!(tests.len(), 5);
    for t in &tests {
        assert_eq!(t.name(), "uwu");
    }
    for t in tests {
        assert!(t.exec().is_ok());
    }
}

#[test]
fn it_works2() {
    let fmt = |row: Row| -> String { format!("{} equals {} is {}", row.0, row.1, row.2) };
    let common = DataTestCommon::new(
        TestName::Dynamic(fmt),
        &["slow", "fast", "uwu"],
        eq_check as fn(Row) -> TestResult,
    );
    let tests = make_data_tests(common, data_source());
    assert_eq!(tests.len(), 5);
    assert_eq!(tests[0].name(), "1 equals 1 is true");
    assert_eq!(tests[1].name(), "1 equals 2 is false");
    assert_eq!(tests[4].name(), "-1 equals -2 is false");
    assert!(tests[0].contains("slow"));
    assert!(tests[0].contains("fast"));
    assert!(tests[0].contains("uwu"));
    assert!(!tests[0].contains("net"));
    for t in tests {
        assert!(t.exec().is_ok());
    }
}

#[test]
fn simple_default_name() {
    let t = SimpleTest::<fn(()) -> String, _>::new(TestName::Static("a"), &[], || Ok(()));
    let suite = once_suite(t);
    assert_eq!(suite.len(), 1);
    let t = suite.into_iter().next().unwrap();
    assert_eq!(t.name(), "a");
    assert!(!t.contains("x"));
    assert!(t.exec().is_ok());
}

#[test]
fn simple_renamed() {
    let t = SimpleTest::<fn(()) -> String, _>::new(TestName::Static("hello"), &[], || Ok(()));
    assert_eq!(t.name(), "hello");
}

#[test]
fn simple_tags_collapse() {
    let t = SimpleTest::<fn(()) -> String, _>::new(
        TestName::Static("a"),
        &["slow", "net", "slow"],
        || Ok(()),
    );
    assert!(t.contains("slow"));
    assert!(t.contains("net"));
    assert!(!t.contains("other"));
    assert_eq!(t.tags.len(), 2);
}

#[test]
fn dynamic_name_same_on_each_call() {
    let fmt = |row: Row| -> String { format!("{} equals {} is {}", row.0, row.1, row.2) };
    let common = DataTestCommon::new(
        TestName::Dynamic(fmt),
        &[],
        eq_check as fn(Row) -> TestResult,
    );
    let tests = make_data_tests(common, vec![(2, 2, true)]);
    let first = tests[0].name();
    let second = tests[0].name();
    assert_eq!(first, second);
    assert_eq!(first, "2 equals 2 is true");
}

#[test]
fn data_test_failure_outcome() {
    let common = DataTestCommon::<Row, fn(Row) -> String, _>::new(
        TestName::Static("uwu"),
        &[],
        eq_check as fn(Row) -> TestResult,
    );
    let tests = make_data_tests(common, vec![(1, 2, true)]);
    let mut results = Vec::new();
    for t in tests {
        results.push(t.exec());
    }
    assert_eq!(results.len(), 1);
    let err = results.pop().unwrap().unwrap_err();
    assert_eq!(err.test, "eq");
    assert_eq!(err.reason, "equality mismatch");
}

#[test]
fn empty_source_yields_no_descriptors() {
    let common = DataTestCommon::<Row, fn(Row) -> String, _>::new(
        TestName::Static("uwu"),
        &[],
        eq_check as fn(Row) -> TestResult,
    );
    let tests = make_data_tests(common, Vec::new());
    assert_eq!(tests.len(), 0);
}

#[test]
fn render_compact_without_message() {
    let e = TestError {
        test: "a".to_string(),
        location: "lib.rs:1",
        reason: "bad",
        message: None,
    };
    assert_eq!(e.render(false), "Test 'a' failed. Location: lib.rs:1. Reason: bad.");
}

#[test]
fn render_alternate_without_message() {
    let e = TestError {
        test: "a".to_string(),
        location: "lib.rs:1",
        reason: "bad",
        message: None,
    };
    assert_eq!(e.render(true), "Test 'a' failed.\nLocation: lib.rs:1.\nReason: bad.");
}

#[test]
fn render_with_message() {
    let e = TestError {
        test: "a".to_string(),
        location: "lib.rs:1",
        reason: "bad",
        message: Some("boom".to_string()),
    };
    assert_eq!(
        e.render(false),
        "Test 'a' failed. Location: lib.rs:1. Reason: bad. Message: boom."
    );
    assert_eq!(
        e.render(true),
        "Test 'a' failed.\nLocation: lib.rs:1.\nReason: bad.\nMessage: boom."
    );
}

#[test]
fn flatten_keeps_order() {
    let suites = vec![vec![1, 2], vec![], vec![3], vec![4, 5]];
    assert_eq!(flatten_suites(suites), vec![1, 2, 3, 4, 5]);
}
