//! Adapter layer between test functions written in Rust and a native test
//! framework that owns discovery, scheduling and reporting.
//!
//! The library covers the three verified pieces of that adapter:
//! registration records handed to the foreign registry before any test runs,
//! non-fatal failure reports with normalized source locations, and the
//! conversion of a test body's return value into a pass/fail outcome.
//!
//! The foreign framework's two entry points (add a discovered test; record a
//! non-fatal failure against the running test) are process-global, unsafe
//! calls; they live outside this library, which only prepares the exact
//! values those calls take.

mod expect;
mod outcome;
mod registry;
mod relay;
mod text;

pub use expect::{
    bool_message, comparison_message, dec_digit_char, dec_text, expect_eq, expect_false,
    expect_ge, expect_gt, expect_le, expect_lt, expect_ne, expect_true, i64_text, render_i64,
};
pub use outcome::{outcome_of, report_outcome, report_test_result, ErrorText, TestOutcome,
    TestResult};
pub use registry::{call_matches, register_all, register_test, RegistrationCall,
    TestRegistration};
pub use relay::{add_failure_at, is_report_for, FailureReport};
pub use text::{clamped_line, no_nul, strip_updirs, CText};
