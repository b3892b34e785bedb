use rust_gtest_interop::{
    outcome_of, register_all, register_test, report_outcome, report_test_result, CText,
    TestOutcome, TestRegistration,
};

fn ctext(s: &str) -> CText {
    CText::checked(s.chars().collect()).unwrap()
}

fn text_of(t: &CText) -> String {
    t.terminated().iter().collect()
}

#[test]
fn ctext_rejects_embedded_terminator() {
    let with_nul: Vec<char> = "a\0b".chars().collect();
    assert!(CText::checked(with_nul).is_none());
    let clean: Vec<char> = "ab".chars().collect();
    let t = CText::checked(clean).unwrap();
    assert_eq!(text_of(&t), "ab\0");
}

#[test]
fn registration_keeps_names_and_line() {
    let r = TestRegistration {
        suite_name: ctext("MySuite"),
        test_name: ctext("MyTest"),
        file: ctext("my_test.rs"),
        line: 33,
    };
    let c = register_test(r);
    assert_eq!(text_of(&c.suite_name), "MySuite\0");
    assert_eq!(text_of(&c.test_name), "MyTest\0");
    assert_eq!(text_of(&c.file), "my_test.rs\0");
    assert_eq!(c.line, 33);
}

#[test]
fn out_of_range_registration_line_becomes_sentinel() {
    let r = TestRegistration {
        suite_name: ctext("S"),
        test_name: ctext("T"),
        file: ctext("f.rs"),
        line: u32::MAX,
    };
    let c = register_test(r);
    assert_eq!(c.line, -1);
}

#[test]
fn every_declared_test_gets_exactly_one_call_in_order() {
    let tests = vec![
        TestRegistration {
            suite_name: ctext("SuiteA"),
            test_name: ctext("First"),
            file: ctext("a.rs"),
            line: 1,
        },
        TestRegistration {
            suite_name: ctext("SuiteA"),
            test_name: ctext("Second"),
            file: ctext("a.rs"),
            line: 9,
        },
        TestRegistration {
            suite_name: ctext("SuiteB"),
            test_name: ctext("Third"),
            file: ctext("b.rs"),
            line: u32::MAX,
        },
    ];
    let calls = register_all(tests);
    assert_eq!(calls.len(), 3);
    assert_eq!(text_of(&calls[0].test_name), "First\0");
    assert_eq!(text_of(&calls[1].test_name), "Second\0");
    assert_eq!(text_of(&calls[2].test_name), "Third\0");
    assert_eq!(text_of(&calls[2].suite_name), "SuiteB\0");
    assert_eq!(calls[0].line, 1);
    assert_eq!(calls[1].line, 9);
    assert_eq!(calls[2].line, -1);
}

#[test]
fn unit_body_always_passes() {
    assert!(matches!(outcome_of(()), TestOutcome::Passed));
    assert!(report_test_result((), "f.rs", 1).is_none());
}

#[test]
fn ok_body_emits_no_additional_failure() {
    let body_result: Result<(), String> = Ok(());
    assert!(matches!(outcome_of(body_result), TestOutcome::Passed));
    let body_result: Result<(), String> = Ok(());
    assert!(report_test_result(body_result, "f.rs", 1).is_none());
    assert!(report_outcome(TestOutcome::Passed, "f.rs", 1).is_none());
}

#[test]
fn returned_error_is_reported_at_the_declaration() {
    let body_result: Result<(), String> = Err("disk full".to_string());
    let rep = report_test_result(body_result, "../my_tests.rs", 77).unwrap();
    assert!(rep.message.contains("disk full"));
    assert_eq!(rep.message, "Test returned error: disk full");
    assert_eq!(rep.line, 77);
    let file: String = rep.file.terminated().iter().collect();
    assert_eq!(file, "my_tests.rs\0");
}

#[test]
fn failed_outcome_emits_exactly_one_report() {
    let o = TestOutcome::Failed("broke".to_string());
    let rep = report_outcome(o, "f.rs", 5).unwrap();
    assert_eq!(rep.message, "broke");
    assert_eq!(rep.line, 5);
}

#[test]
fn error_messages_carry_the_returned_prefix() {
    let body_result: Result<(), String> = Err("x".to_string());
    match outcome_of(body_result) {
        TestOutcome::Failed(m) => assert_eq!(m, "Test returned error: x"),
        TestOutcome::Passed => panic!("error value must fail"),
    }
}
