//! Reading a yes/no console answer.

use vstd::prelude::*;
use vstd::string::*;

use crate::text::str_eq;

verus! {

/// The characters trimmed off an answer's ends.
pub open spec fn is_space(c: char) -> bool {
    c == ' ' || c == '\t' || c == '\n' || c == '\r'
}

/// `s` with its leading whitespace removed.
pub open spec fn trim_start(s: Seq<char>) -> Seq<char>
    decreases s.len(),
{
    if s.len() > 0 && is_space(s[0]) {
        trim_start(s.skip(1))
    } else {
        s
    }
}

/// `s` with its trailing whitespace removed.
pub open spec fn trim_end(s: Seq<char>) -> Seq<char>
    decreases s.len(),
{
    if s.len() > 0 && is_space(s.last()) {
        trim_end(s.drop_last())
    } else {
        s
    }
}

/// `s` with whitespace removed from both ends.
pub open spec fn spec_trim(s: Seq<char>) -> Seq<char> {
    trim_end(trim_start(s))
}

/// Whether the trimmed answer is one of the accepted yes spellings.
pub open spec fn spec_is_yes(s: Seq<char>) -> bool {
    ||| spec_trim(s) == "Y"@
    ||| spec_trim(s) == "y"@
    ||| spec_trim(s) == "Yes"@
    ||| spec_trim(s) == "yes"@
}

/// Whether the character is trimmed off an answer's ends.
fn is_space_char(c: char) -> (r: bool)
    ensures
        r == is_space(c),
{
    c == ' ' || c == '\t' || c == '\n' || c == '\r'
}

/// One line the user typed in answer to a yes/no question.
pub struct Answer<'a> {
    val: &'a str,
}

impl<'a> View for Answer<'a> {
    type V = Seq<char>;

    closed spec fn view(&self) -> Seq<char> {
        self.val@
    }
}

impl<'a> Answer<'a> {
    /// An answer over the line as typed.
    pub fn new(val: &'a str) -> (r: Answer<'a>)
        ensures
            r@ == val@,
    {
        Answer { val }
    }

    /// Whether the answer means yes: `Y`, `y`, `Yes` or `yes`, with
    /// surrounding whitespace ignored; anything else means no.
    pub fn is_yes(&self) -> (r: bool)
        ensures
            r == spec_is_yes(self@),
    {
        let s = self.val;
        let n = s.unicode_len();
        let mut lo: usize = 0;
        proof {
            assert(s@.skip(0) =~= s@);
        }
        while lo < n && is_space_char(s.get_char(lo))
            invariant
                lo <= n,
                n == s@.len(),
                trim_start(s@) == trim_start(s@.skip(lo as int)),
            decreases n - lo,
        {
            proof {
                assert(s@.skip(lo as int).len() > 0);
                assert(s@.skip(lo as int)[0] == s@[lo as int]);
                assert(s@.skip(lo as int).skip(1) =~= s@.skip(lo + 1 as int));
            }
            lo = lo + 1;
        }
        let ghost u = s@.skip(lo as int);
        proof {
            if lo < n {
                assert(u[0] == s@[lo as int]);
            }
            assert(trim_start(s@) == u);
            assert(s@.subrange(lo as int, n as int) =~= u);
        }
        let mut hi: usize = n;
        while hi > lo && is_space_char(s.get_char(hi - 1))
            invariant
                lo <= hi <= n,
                n == s@.len(),
                u == s@.skip(lo as int),
                trim_end(u) == trim_end(s@.subrange(lo as int, hi as int)),
            decreases hi,
        {
            proof {
                let t = s@.subrange(lo as int, hi as int);
                assert(t.len() > 0);
                assert(t.last() == s@[hi - 1]);
                assert(t.drop_last() =~= s@.subrange(lo as int, hi - 1));
            }
            hi = hi - 1;
        }
        proof {
            let t = s@.subrange(lo as int, hi as int);
            if hi > lo {
                assert(t.last() == s@[hi - 1]);
            }
            assert(trim_end(u) == t);
            assert(spec_trim(s@) == t);
        }
        let core = s.substring_char(lo, hi);
        str_eq(core, "Y") || str_eq(core, "y") || str_eq(core, "Yes") || str_eq(core, "yes")
    }
}

} // verus!
