//! Non-fatal expectation forms: equality, inequality, the four orderings,
//! and boolean truth, each written out as a function (a test declaration
//! expands its expectation forms into these calls, passing the operands'
//! source text and the call site's file and line). A met expectation emits
//! nothing; a violated one builds exactly one failure report whose message
//! embeds the operands' source text and values, and execution continues
//! either way.

use vstd::prelude::*;
use vstd::string::StringExecFns;

use crate::relay::{add_failure_at, is_report_for, FailureReport};
use crate::text::no_nul;

verus! {

/// The decimal digit character for `d` (`0 <= d <= 9`).
pub open spec fn dec_digit_char(d: int) -> char {
    if d == 0 {
        '0'
    } else if d == 1 {
        '1'
    } else if d == 2 {
        '2'
    } else if d == 3 {
        '3'
    } else if d == 4 {
        '4'
    } else if d == 5 {
        '5'
    } else if d == 6 {
        '6'
    } else if d == 7 {
        '7'
    } else if d == 8 {
        '8'
    } else {
        '9'
    }
}

/// The decimal digits of `n`, most significant first, no leading zero
/// except for `n == 0` itself.
pub open spec fn dec_text(n: nat) -> Seq<char>
    decreases n,
{
    if n < 10 {
        seq![dec_digit_char(n as int)]
    } else {
        dec_text(n / 10) + seq![dec_digit_char((n % 10) as int)]
    }
}

/// The decimal rendering of `v`: a minus sign for a negative value, then
/// the digits of its magnitude.
pub open spec fn i64_text(v: int) -> Seq<char> {
    if v < 0 {
        seq!['-'] + dec_text((-v) as nat)
    } else {
        dec_text(v as nat)
    }
}

/// Appends the decimal digits of `n` to `out`.
fn append_dec(n: u64, out: &mut String)
    ensures
        final(out)@ == old(out)@ + dec_text(n as nat),
    decreases n,
{
    if n >= 10 {
        append_dec(n / 10, out);
    }
    let ghost mid = out@;
    let d: u64 = n % 10;
    if d == 0 {
        proof {
            reveal_strlit("0");
            assert("0"@ =~= seq![dec_digit_char(d as int)]);
        }
        out.append("0");
    } else if d == 1 {
        proof {
            reveal_strlit("1");
            assert("1"@ =~= seq![dec_digit_char(d as int)]);
        }
        out.append("1");
    } else if d == 2 {
        proof {
            reveal_strlit("2");
            assert("2"@ =~= seq![dec_digit_char(d as int)]);
        }
        out.append("2");
    } else if d == 3 {
        proof {
            reveal_strlit("3");
            assert("3"@ =~= seq![dec_digit_char(d as int)]);
        }
        out.append("3");
    } else if d == 4 {
        proof {
            reveal_strlit("4");
            assert("4"@ =~= seq![dec_digit_char(d as int)]);
        }
        out.append("4");
    } else if d == 5 {
        proof {
            reveal_strlit("5");
            assert("5"@ =~= seq![dec_digit_char(d as int)]);
        }
        out.append("5");
    } else if d == 6 {
        proof {
            reveal_strlit("6");
            assert("6"@ =~= seq![dec_digit_char(d as int)]);
        }
        out.append("6");
    } else if d == 7 {
        proof {
            reveal_strlit("7");
            assert("7"@ =~= seq![dec_digit_char(d as int)]);
        }
        out.append("7");
    } else if d == 8 {
        proof {
            reveal_strlit("8");
            assert("8"@ =~= seq![dec_digit_char(d as int)]);
        }
        out.append("8");
    } else {
        proof {
            reveal_strlit("9");
            assert("9"@ =~= seq![dec_digit_char(d as int)]);
        }
        out.append("9");
    }
    proof {
        assert(out@ =~= mid + seq![dec_digit_char(d as int)]);
        if n >= 10 {
            assert(out@ =~= old(out)@ + dec_text(n as nat));
        }
    }
}

/// Renders `v` in decimal.
pub fn render_i64(v: i64) -> (r: String)
    ensures
        r@ == i64_text(v as int),
{
    let mut out = String::new();
    if v >= 0 {
        append_dec(v as u64, &mut out);
        proof {
            assert(out@ =~= i64_text(v as int));
        }
    } else {
        proof {
            reveal_strlit("-");
            assert("-"@ =~= seq!['-']);
        }
        out.append("-");
        let mag: u64 = if v == i64::MIN {
            9223372036854775808u64
        } else {
            (-v) as u64
        };
        proof {
            assert(mag as int == -(v as int));
        }
        append_dec(mag, &mut out);
        proof {
            assert(out@ =~= i64_text(v as int));
        }
    }
    out
}

/// The message of a violated comparison: the operands' source text under the
/// expected relation, then both operand values under the same relation.
pub open spec fn comparison_message(
    left_expr: Seq<char>,
    op: Seq<char>,
    right_expr: Seq<char>,
    left: int,
    right: int,
) -> Seq<char> {
    "expected "@ + left_expr + " "@ + op + " "@ + right_expr + " but found: "@ + i64_text(left)
        + " "@ + op + " "@ + i64_text(right)
}

/// The message of a violated boolean expectation: the source text of the
/// condition and the value it actually had.
pub open spec fn bool_message(expr: Seq<char>, expected: bool) -> Seq<char> {
    if expected {
        "expected "@ + expr + " to be true but found: false"@
    } else {
        "expected "@ + expr + " to be false but found: true"@
    }
}

/// Builds the failure report of a violated comparison.
fn comparison_failure(
    left: i64,
    right: i64,
    op: &str,
    left_expr: &str,
    right_expr: &str,
    file: &str,
    line: u32,
) -> (rep: FailureReport)
    requires
        no_nul(file@),
    ensures
        is_report_for(
            rep,
            file@,
            line,
            comparison_message(left_expr@, op@, right_expr@, left as int, right as int),
        ),
{
    let mut m = String::from_str("expected ");
    m.append(left_expr);
    m.append(" ");
    m.append(op);
    m.append(" ");
    m.append(right_expr);
    m.append(" but found: ");
    let left_text = render_i64(left);
    m.append(left_text.as_str());
    m.append(" ");
    m.append(op);
    m.append(" ");
    let right_text = render_i64(right);
    m.append(right_text.as_str());
    add_failure_at(file, line, m.as_str())
}

/// Builds the failure report of a violated boolean expectation.
fn bool_failure(expected: bool, expr: &str, file: &str, line: u32) -> (rep: FailureReport)
    requires
        no_nul(file@),
    ensures
        is_report_for(rep, file@, line, bool_message(expr@, expected)),
{
    let mut m = String::from_str("expected ");
    m.append(expr);
    if expected {
        m.append(" to be true but found: false");
    } else {
        m.append(" to be false but found: true");
    }
    add_failure_at(file, line, m.as_str())
}

/// Non-fatal equality expectation: emits nothing when `left == right`, and
/// exactly one failure report for the call's file and line otherwise.
pub fn expect_eq(
    left: i64,
    right: i64,
    left_expr: &str,
    right_expr: &str,
    file: &str,
    line: u32,
) -> (r: Option<FailureReport>)
    requires
        no_nul(file@),
    ensures
        left == right ==> r is None,
        left != right ==> (r matches Some(rep) && is_report_for(
            rep,
            file@,
            line,
            comparison_message(left_expr@, "=="@, right_expr@, left as int, right as int),
        )),
{
    if left == right {
        None
    } else {
        Some(comparison_failure(left, right, "==", left_expr, right_expr, file, line))
    }
}

/// Non-fatal inequality expectation: emits nothing when `left != right`.
pub fn expect_ne(
    left: i64,
    right: i64,
    left_expr: &str,
    right_expr: &str,
    file: &str,
    line: u32,
) -> (r: Option<FailureReport>)
    requires
        no_nul(file@),
    ensures
        left != right ==> r is None,
        left == right ==> (r matches Some(rep) && is_report_for(
            rep,
            file@,
            line,
            comparison_message(left_expr@, "!="@, right_expr@, left as int, right as int),
        )),
{
    if left != right {
        None
    } else {
        Some(comparison_failure(left, right, "!=", left_expr, right_expr, file, line))
    }
}

/// Non-fatal less-than expectation: emits nothing when `left < right`.
pub fn expect_lt(
    left: i64,
    right: i64,
    left_expr: &str,
    right_expr: &str,
    file: &str,
    line: u32,
) -> (r: Option<FailureReport>)
    requires
        no_nul(file@),
    ensures
        left < right ==> r is None,
        left >= right ==> (r matches Some(rep) && is_report_for(
            rep,
            file@,
            line,
            comparison_message(left_expr@, "<"@, right_expr@, left as int, right as int),
        )),
{
    if left < right {
        None
    } else {
        Some(comparison_failure(left, right, "<", left_expr, right_expr, file, line))
    }
}

/// Non-fatal less-or-equal expectation: emits nothing when `left <= right`.
pub fn expect_le(
    left: i64,
    right: i64,
    left_expr: &str,
    right_expr: &str,
    file: &str,
    line: u32,
) -> (r: Option<FailureReport>)
    requires
        no_nul(file@),
    ensures
        left <= right ==> r is None,
        left > right ==> (r matches Some(rep) && is_report_for(
            rep,
            file@,
            line,
            comparison_message(left_expr@, "<="@, right_expr@, left as int, right as int),
        )),
{
    if left <= right {
        None
    } else {
        Some(comparison_failure(left, right, "<=", left_expr, right_expr, file, line))
    }
}

/// Non-fatal greater-than expectation: emits nothing when `left > right`.
pub fn expect_gt(
    left: i64,
    right: i64,
    left_expr: &str,
    right_expr: &str,
    file: &str,
    line: u32,
) -> (r: Option<FailureReport>)
    requires
        no_nul(file@),
    ensures
        left > right ==> r is None,
        left <= right ==> (r matches Some(rep) && is_report_for(
            rep,
            file@,
            line,
            comparison_message(left_expr@, ">"@, right_expr@, left as int, right as int),
        )),
{
    if left > right {
        None
    } else {
        Some(comparison_failure(left, right, ">", left_expr, right_expr, file, line))
    }
}

/// Non-fatal greater-or-equal expectation: emits nothing when `left >= right`.
pub fn expect_ge(
    left: i64,
    right: i64,
    left_expr: &str,
    right_expr: &str,
    file: &str,
    line: u32,
) -> (r: Option<FailureReport>)
    requires
        no_nul(file@),
    ensures
        left >= right ==> r is None,
        left < right ==> (r matches Some(rep) && is_report_for(
            rep,
            file@,
            line,
            comparison_message(left_expr@, ">="@, right_expr@, left as int, right as int),
        )),
{
    if left >= right {
        None
    } else {
        Some(comparison_failure(left, right, ">=", left_expr, right_expr, file, line))
    }
}

/// Non-fatal boolean-true expectation: emits nothing when `cond` holds.
pub fn expect_true(cond: bool, expr: &str, file: &str, line: u32) -> (r: Option<FailureReport>)
    requires
        no_nul(file@),
    ensures
        cond ==> r is None,
        !cond ==> (r matches Some(rep) && is_report_for(rep, file@, line, bool_message(expr@, true))),
{
    if cond {
        None
    } else {
        Some(bool_failure(true, expr, file, line))
    }
}

/// Non-fatal boolean-false expectation: emits nothing when `cond` is false.
pub fn expect_false(cond: bool, expr: &str, file: &str, line: u32) -> (r: Option<FailureReport>)
    requires
        no_nul(file@),
    ensures
        !cond ==> r is None,
        cond ==> (r matches Some(rep) && is_report_for(rep, file@, line, bool_message(expr@, false))),
{
    if !cond {
        None
    } else {
        Some(bool_failure(false, expr, file, line))
    }
}

} // verus!
