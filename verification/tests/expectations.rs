use rust_gtest_interop::{
    add_failure_at, expect_eq, expect_false, expect_ge, expect_gt, expect_le, expect_lt,
    expect_ne, expect_true, render_i64, FailureReport,
};

fn file_text(rep: &FailureReport) -> String {
    rep.file.terminated().iter().collect()
}

#[test]
fn met_expectations_emit_nothing() {
    assert!(expect_eq(3, 3, "a", "b", "f.rs", 1).is_none());
    assert!(expect_ne(3, 4, "a", "b", "f.rs", 2).is_none());
    assert!(expect_lt(3, 4, "a", "b", "f.rs", 3).is_none());
    assert!(expect_le(4, 4, "a", "b", "f.rs", 4).is_none());
    assert!(expect_gt(5, 4, "a", "b", "f.rs", 5).is_none());
    assert!(expect_ge(4, 4, "a", "b", "f.rs", 6).is_none());
    assert!(expect_true(true, "c", "f.rs", 7).is_none());
    assert!(expect_false(false, "c", "f.rs", 8).is_none());
}

#[test]
fn violated_equality_reports_values_and_location() {
    let rep = expect_eq(1, 2, "left()", "right()", "suite/f.rs", 42).unwrap();
    assert_eq!(rep.message, "expected left() == right() but found: 1 == 2");
    assert_eq!(rep.line, 42);
    assert_eq!(file_text(&rep), "suite/f.rs\0");
}

#[test]
fn violated_orderings_report_their_operator() {
    let rep = expect_ne(7, 7, "a", "b", "f.rs", 1).unwrap();
    assert_eq!(rep.message, "expected a != b but found: 7 != 7");
    let rep = expect_lt(5, 5, "a", "b", "f.rs", 1).unwrap();
    assert_eq!(rep.message, "expected a < b but found: 5 < 5");
    let rep = expect_le(6, 5, "a", "b", "f.rs", 1).unwrap();
    assert_eq!(rep.message, "expected a <= b but found: 6 <= 5");
    let rep = expect_gt(5, 5, "a", "b", "f.rs", 1).unwrap();
    assert_eq!(rep.message, "expected a > b but found: 5 > 5");
    let rep = expect_ge(4, 5, "a", "b", "f.rs", 1).unwrap();
    assert_eq!(rep.message, "expected a >= b but found: 4 >= 5");
}

#[test]
fn violated_boolean_expectations_report_actual_value() {
    let rep = expect_true(false, "is_ready()", "f.rs", 9).unwrap();
    assert_eq!(rep.message, "expected is_ready() to be true but found: false");
    let rep = expect_false(true, "is_done()", "f.rs", 10).unwrap();
    assert_eq!(rep.message, "expected is_done() to be false but found: true");
}

#[test]
fn two_equality_checks_record_exactly_one_failure() {
    let mut recorded: Vec<FailureReport> = Vec::new();
    if let Some(rep) = expect_eq(1, 1, "1", "1", "t.rs", 20) {
        recorded.push(rep);
    }
    if let Some(rep) = expect_eq(1, 2, "1", "2", "t.rs", 21) {
        recorded.push(rep);
    }
    assert_eq!(recorded.len(), 1);
    assert!(recorded[0].message.contains('1'));
    assert!(recorded[0].message.contains('2'));
    assert_eq!(recorded[0].line, 21);
    assert_eq!(file_text(&recorded[0]), "t.rs\0");
}

#[test]
fn negative_and_extreme_values_render_in_messages() {
    let rep = expect_eq(-5, i64::MIN, "a", "b", "f.rs", 1).unwrap();
    assert_eq!(rep.message, "expected a == b but found: -5 == -9223372036854775808");
    assert_eq!(render_i64(0), "0");
    assert_eq!(render_i64(-1), "-1");
    assert_eq!(render_i64(1234567890), "1234567890");
    assert_eq!(render_i64(i64::MAX), "9223372036854775807");
    assert_eq!(render_i64(i64::MIN), "-9223372036854775808");
}

#[test]
fn relayed_failure_strips_build_prefix() {
    let rep = add_failure_at("../../base/logging.rs", 12, "boom");
    assert_eq!(file_text(&rep), "base/logging.rs\0");
    assert_eq!(rep.line, 12);
    assert_eq!(rep.message, "boom");
}

#[test]
fn prefix_stripping_is_one_left_to_right_pass() {
    let rep = add_failure_at("a/../b.rs", 1, "m");
    assert_eq!(file_text(&rep), "a/b.rs\0");
    // Removing an occurrence does not re-examine the characters around it.
    let rep = add_failure_at("..././", 1, "m");
    assert_eq!(file_text(&rep), "../\0");
}

#[test]
fn out_of_range_failure_line_becomes_sentinel() {
    let rep = add_failure_at("f.rs", u32::MAX, "m");
    assert_eq!(rep.line, -1);
    let rep = add_failure_at("f.rs", 0x8000_0000, "m");
    assert_eq!(rep.line, -1);
    let rep = add_failure_at("f.rs", 0x7fff_ffff, "m");
    assert_eq!(rep.line, i32::MAX);
}
