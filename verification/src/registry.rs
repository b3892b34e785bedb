//! The Registration Bridge: turns a test's registration record into the
//! exact arguments of the foreign framework's test-discovery entry point.
//! Registration happens once per test, on the initializing thread, before
//! any test runs, and may not fail; everything fallible (embedded NUL
//! terminators) is ruled out when the record's strings are built as
//! [`CText`] values.

use vstd::prelude::*;

use crate::text::{clamp_line, clamped_line, CText};

verus! {

/// The immutable record describing one test: suite name, test name, source
/// file and 1-based line. The zero-argument test body itself is a raw
/// function pointer that only the unverified glue around the library can
/// hold; callers pair it with this record when they hand the call to the
/// foreign framework.
pub struct TestRegistration {
    pub suite_name: CText,
    pub test_name: CText,
    pub file: CText,
    pub line: u32,
}

/// The prepared arguments of one discovery call: the record's strings,
/// still NUL-terminated, and its line clamped into the foreign framework's
/// signed width.
pub struct RegistrationCall {
    pub suite_name: CText,
    pub test_name: CText,
    pub file: CText,
    pub line: i32,
}

/// `c` is the discovery call that registers `t`: same strings, and the line
/// number carried over exactly or replaced by the sentinel `-1` when it does
/// not fit the foreign framework's signed width.
pub open spec fn call_matches(c: RegistrationCall, t: TestRegistration) -> bool {
    &&& c.suite_name@ == t.suite_name@
    &&& c.test_name@ == t.test_name@
    &&& c.file@ == t.file@
    &&& c.line as int == clamped_line(t.line)
}

/// Prepares the discovery call for one registration record. No failure path:
/// an out-of-range line becomes the sentinel, never an error.
pub fn register_test(r: TestRegistration) -> (c: RegistrationCall)
    ensures
        call_matches(c, r),
{
    let line = clamp_line(r.line);
    RegistrationCall { suite_name: r.suite_name, test_name: r.test_name, file: r.file, line }
}

/// Prepares the discovery calls for a whole list of registration records:
/// exactly one call per declared test, in declaration order. The caller
/// performs the calls before any test body runs.
pub fn register_all(tests: Vec<TestRegistration>) -> (calls: Vec<RegistrationCall>)
    ensures
        calls@.len() == tests@.len(),
        forall|i: int| 0 <= i < tests@.len() ==> call_matches(calls@[i], tests@[i]),
{
    let ghost orig = tests@;
    let mut rest = tests;
    let mut calls: Vec<RegistrationCall> = Vec::new();
    proof {
        assert(rest@ =~= orig.skip(0));
    }
    while rest.len() > 0
        invariant
            orig.len() == calls@.len() + rest@.len(),
            rest@ == orig.skip(calls@.len() as int),
            forall|i: int| 0 <= i < calls@.len() ==> call_matches(calls@[i], orig[i]),
        decreases rest@.len(),
    {
        let ghost done = calls@.len() as int;
        let t = rest.remove(0);
        proof {
            assert(t == orig[done]);
            assert(rest@ =~= orig.skip(done + 1));
        }
        let c = register_test(t);
        calls.push(c);
    }
    calls
}

} // verus!
