//! The Result Adapter: maps a test body's return value to a pass/fail
//! outcome. A body that returns nothing always passes (its failures, if any,
//! were relayed while it ran); a body that returns an error value fails with
//! a rendering of that error under a fixed prefix, and the adapter emits
//! exactly one additional failure report, attributed to the registration's
//! file and line.

use vstd::prelude::*;
use vstd::string::StringExecFns;

use crate::relay::{add_failure_at, is_report_for, FailureReport};
use crate::text::no_nul;

verus! {

/// An error value a test body may return: anything renderable as
/// human-readable text. Test authors implement this for their own error
/// types; the library provides it for `String`.
pub trait ErrorText: Sized {
    /// The rendered text of the error.
    spec fn spec_text(&self) -> Seq<char>;

    /// Renders the error.
    fn error_text(self) -> (r: String)
        ensures
            r@ == self.spec_text(),
    ;
}

impl ErrorText for String {
    open spec fn spec_text(&self) -> Seq<char> {
        self@
    }

    fn error_text(self) -> (r: String) {
        self
    }
}

/// A return type a test body may have. Its value denotes either success
/// (no message) or failure, with a message that names the returned error
/// and so tells it apart from failures relayed while the body ran.
pub trait TestResult: Sized {
    /// The failure message this value denotes, if any.
    spec fn spec_error_message(&self) -> Option<Seq<char>>;

    /// Renders the failure message this value denotes, if any.
    fn into_error_message(self) -> (r: Option<String>)
        ensures
            match self.spec_error_message() {
                Option::None => r is None,
                Option::Some(m) => r matches Some(s) && s@ == m,
            },
    ;
}

impl TestResult for () {
    open spec fn spec_error_message(&self) -> Option<Seq<char>> {
        None
    }

    fn into_error_message(self) -> (r: Option<String>) {
        None
    }
}

impl<E: ErrorText> TestResult for Result<(), E> {
    open spec fn spec_error_message(&self) -> Option<Seq<char>> {
        match self {
            Result::Ok(_) => None,
            Result::Err(e) => Some("Test returned error: "@ + e.spec_text()),
        }
    }

    fn into_error_message(self) -> (r: Option<String>) {
        match self {
            Result::Ok(()) => None,
            Result::Err(e) => {
                let mut m = String::from_str("Test returned error: ");
                let t = e.error_text();
                m.append(t.as_str());
                Some(m)
            },
        }
    }
}

/// The logical result of a test body: passed, or failed with a message.
pub enum TestOutcome {
    Passed,
    Failed(String),
}

/// Converts a test body's return value into its outcome.
pub fn outcome_of<T: TestResult>(result: T) -> (o: TestOutcome)
    ensures
        match result.spec_error_message() {
            Option::None => o is Passed,
            Option::Some(m) => o matches TestOutcome::Failed(s) && s@ == m,
        },
{
    match result.into_error_message() {
        None => TestOutcome::Passed,
        Some(m) => TestOutcome::Failed(m),
    }
}

/// Emits the one additional failure report a failed outcome owes, attributed
/// to the registration's `file` and `line`; a passed outcome owes none.
pub fn report_outcome(o: TestOutcome, file: &str, line: u32) -> (r: Option<FailureReport>)
    requires
        no_nul(file@),
    ensures
        o is Passed ==> r is None,
        o matches TestOutcome::Failed(m) ==> r matches Some(rep) && is_report_for(
            rep,
            file@,
            line,
            m@,
        ),
{
    match o {
        TestOutcome::Passed => None,
        TestOutcome::Failed(m) => Some(add_failure_at(file, line, m.as_str())),
    }
}

/// The whole adapter in one step: a success value (or no value) emits zero
/// additional failures; an error value emits exactly one, whose message
/// renders the error.
pub fn report_test_result<T: TestResult>(result: T, file: &str, line: u32) -> (r: Option<
    FailureReport,
>)
    requires
        no_nul(file@),
    ensures
        result.spec_error_message() is None ==> r is None,
        result.spec_error_message() matches Some(m) ==> r matches Some(rep) && is_report_for(
            rep,
            file@,
            line,
            m,
        ),
{
    let o = outcome_of(result);
    report_outcome(o, file, line)
}

} // verus!
