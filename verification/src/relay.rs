//! The Failure Relay: turns a detected expectation failure into the exact
//! (file, line, message) triple that the foreign framework's non-fatal
//! failure entry point takes. The report is ephemeral: it is consumed by a
//! single call into that entry point and is never stored.

use vstd::prelude::*;

use crate::text::{clamp_line, clamped_line, no_nul, strip_updirs, strip_updirs_str, CText};

verus! {

/// One non-fatal failure, ready for the foreign framework: a NUL-terminated
/// source file with build-system prefixes stripped, a line number already
/// clamped into the framework's signed width, and a human-readable message.
pub struct FailureReport {
    pub file: CText,
    pub line: i32,
    pub message: String,
}

/// `rep` is the report that a failure at `file`/`line` with text `message`
/// produces: the file has every `../` occurrence removed, the line is the
/// given one or the sentinel `-1`, and the message is carried unchanged.
pub open spec fn is_report_for(
    rep: FailureReport,
    file: Seq<char>,
    line: u32,
    message: Seq<char>,
) -> bool {
    &&& rep.file@ == strip_updirs(file)
    &&& rep.line as int == clamped_line(line)
    &&& rep.message@ == message
}

/// Builds the non-fatal failure report for `message`, detected at
/// `file`/`line`. The file path must not hold an embedded NUL: source
/// locations come from the compiler and are validated before they reach the
/// relay.
pub fn add_failure_at(file: &str, line: u32, message: &str) -> (rep: FailureReport)
    requires
        no_nul(file@),
    ensures
        is_report_for(rep, file@, line, message@),
{
    let stripped = strip_updirs_str(file);
    proof {
        crate::text::lemma_strip_updirs_no_nul(file@);
    }
    FailureReport { file: CText::new(stripped), line: clamp_line(line), message: message.to_owned() }
}

} // verus!
