//! Plain-text values that cross the language boundary: NUL-terminated
//! strings with process-lifetime contents, path normalization, and the
//! clamping of line numbers into the foreign framework's signed width.

use vstd::prelude::*;
use vstd::string::StrSliceExecFns;

verus! {

/// True when no character of `s` is the NUL terminator.
pub open spec fn no_nul(s: Seq<char>) -> bool {
    forall|i: int| 0 <= i < s.len() ==> s[i] != '\0'
}

/// The build system hands source paths that begin with one or more `../`
/// segments; reported paths drop them so that they are relative to the
/// canonical source root. Every occurrence of `../` is removed in one pass,
/// left to right; characters of a removed occurrence are not re-examined.
pub open spec fn strip_updirs(s: Seq<char>) -> Seq<char>
    decreases s.len(),
{
    if s.len() >= 3 && s[0] == '.' && s[1] == '.' && s[2] == '/' {
        strip_updirs(s.skip(3))
    } else if s.len() == 0 {
        Seq::empty()
    } else {
        seq![s[0]] + strip_updirs(s.skip(1))
    }
}

/// Stripping `../` occurrences never introduces a NUL character.
pub proof fn lemma_strip_updirs_no_nul(s: Seq<char>)
    requires
        no_nul(s),
    ensures
        no_nul(strip_updirs(s)),
    decreases s.len(),
{
    if s.len() >= 3 && s[0] == '.' && s[1] == '.' && s[2] == '/' {
        assert(no_nul(s.skip(3))) by {
            assert(forall|i: int| 0 <= i < s.skip(3).len() ==> s.skip(3)[i] == s[i + 3]);
        }
        lemma_strip_updirs_no_nul(s.skip(3));
    } else if s.len() > 0 {
        assert(no_nul(s.skip(1))) by {
            assert(forall|i: int| 0 <= i < s.skip(1).len() ==> s.skip(1)[i] == s[i + 1]);
        }
        lemma_strip_updirs_no_nul(s.skip(1));
    }
}

/// Removes every `../` occurrence of `s`, in one pass, left to right.
pub(crate) fn strip_updirs_str(s: &str) -> (r: Vec<char>)
    ensures
        r@ == strip_updirs(s@),
{
    let n: usize = s.unicode_len();
    let mut out: Vec<char> = Vec::new();
    let mut i: usize = 0;
    proof {
        assert(s@.skip(0) =~= s@);
        assert(Seq::<char>::empty() + strip_updirs(s@) =~= strip_updirs(s@));
    }
    while i < n
        invariant
            i <= n,
            n == s@.len(),
            strip_updirs(s@) == out@ + strip_updirs(s@.skip(i as int)),
        decreases n - i,
    {
        let ghost rest = s@.skip(i as int);
        proof {
            assert(rest.len() == n - i);
            assert(forall|k: int| 0 <= k < rest.len() ==> rest[k] == s@[i + k]);
        }
        if n - i >= 3 && s.get_char(i) == '.' && s.get_char(i + 1) == '.'
            && s.get_char(i + 2) == '/' {
            proof {
                assert(rest.skip(3) =~= s@.skip(i + 3));
                assert(strip_updirs(rest) == strip_updirs(s@.skip(i + 3)));
            }
            i = i + 3;
        } else {
            let c = s.get_char(i);
            proof {
                assert(rest.skip(1) =~= s@.skip(i + 1));
                assert(strip_updirs(rest) == seq![rest[0]] + strip_updirs(s@.skip(i + 1)));
                assert(out@ + strip_updirs(rest) =~= out@.push(c) + strip_updirs(s@.skip(i + 1)));
            }
            out.push(c);
            i = i + 1;
        }
    }
    proof {
        assert(s@.skip(n as int) =~= Seq::<char>::empty());
        assert(out@ + strip_updirs(s@.skip(n as int)) =~= out@);
    }
    out
}

/// The foreign framework takes a signed line number; a value outside that
/// range is reported as the sentinel `-1`, which it treats as "unknown line".
pub open spec fn clamped_line(line: u32) -> int {
    if line <= i32::MAX {
        line as int
    } else {
        -1
    }
}

/// Clamps a line number into the foreign framework's signed width.
pub(crate) fn clamp_line(line: u32) -> (r: i32)
    ensures
        r as int == clamped_line(line),
{
    if line <= 0x7fff_ffff {
        line as i32
    } else {
        -1
    }
}

/// A NUL-terminated string: the character buffer the foreign framework's C
/// entry points read. The view is the text without its terminator; the
/// terminator is always present and never occurs inside the text.
pub struct CText {
    chars: Vec<char>,
}

impl View for CText {
    type V = Seq<char>;

    closed spec fn view(&self) -> Seq<char> {
        self.chars@.take(self.chars@.len() - 1)
    }
}

impl CText {
    #[verifier::type_invariant]
    spec fn wf(self) -> bool {
        self.chars@.len() >= 1 && self.chars@.last() == '\0' && no_nul(
            self.chars@.take(self.chars@.len() - 1),
        )
    }

    /// Appends the terminator to `chars`. The caller rules embedded
    /// terminators out; [`CText::checked`] tests for them instead.
    pub fn new(chars: Vec<char>) -> (r: CText)
        requires
            no_nul(chars@),
        ensures
            r@ == chars@,
    {
        let ghost orig = chars@;
        let mut buf = chars;
        buf.push('\0');
        let r = CText { chars: buf };
        proof {
            assert(r.chars@ == orig.push('\0'));
            assert(r@ =~= orig);
        }
        r
    }

    /// Rejects a buffer with an embedded terminator; otherwise terminates it.
    pub fn checked(chars: Vec<char>) -> (r: Option<CText>)
        ensures
            no_nul(chars@) ==> (r matches Some(t) && t@ == chars@),
            !no_nul(chars@) ==> r is None,
    {
        let n: usize = chars.len();
        let mut i: usize = 0;
        while i < n
            invariant
                i <= n,
                n == chars@.len(),
                forall|j: int| 0 <= j < i ==> chars@[j] != '\0',
            decreases n - i,
        {
            if chars[i] == '\0' {
                return None;
            }
            i = i + 1;
        }
        Some(CText::new(chars))
    }

    /// The full buffer, terminator included: what a caller hands to the
    /// foreign framework as a C string.
    pub fn terminated(&self) -> (r: &Vec<char>)
        ensures
            r@ == self@.push('\0'),
            no_nul(self@),
    {
        proof {
            use_type_invariant(self);
            assert(self.chars@ =~= self@.push('\0'));
        }
        &self.chars
    }
}

} // verus!
