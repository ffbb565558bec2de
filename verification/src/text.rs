//! Small string utilities: choosing the longer of two string slices,
//! splitting off the first word, and appending a fixed greeting suffix.

use vstd::prelude::*;
use vstd::string::StrSliceExecFns;
use vstd::string::StringExecFns;
use vstd::string::StringSliceAdditionalSpecFns;

verus! {

/// Return the longer of two string slices, measured in bytes; on a tie the
/// second one is returned.
pub fn longest<'a>(x: &'a str, y: &'a str) -> (r: &'a str)
    requires
        x.spec_bytes().len() <= usize::MAX,
        y.spec_bytes().len() <= usize::MAX,
    ensures
        r@ == if x.spec_bytes().len() > y.spec_bytes().len() {
            x@
        } else {
            y@
        },
{
    if x.len() > y.len() {
        x
    } else {
        y
    }
}

/// Return the first word of `s`: the longest prefix that holds no space.
/// If `s` holds no space at all, the whole string is one word and is
/// returned entire.
pub fn first_word(s: &str) -> (w: &str)
    ensures
        w@ == s@.subrange(0, w@.len() as int),
        forall|j: int| 0 <= j < w@.len() ==> s@[j] != ' ',
        w@.len() < s@.len() ==> s@[w@.len() as int] == ' ',
        w@.len() <= s@.len(),
{
    let n = s.unicode_len();
    let mut i: usize = 0;
    while i < n
        invariant
            n == s@.len(),
            i <= n,
            forall|j: int| 0 <= j < i ==> s@[j] != ' ',
        decreases n - i,
    {
        if s.get_char(i) == ' ' {
            return s.substring_char(0, i);
        }
        i = i + 1;
    }
    proof {
        assert(s@.subrange(0, s@.len() as int) =~= s@);
    }
    s
}

/// Append `" World!"` to the string.
pub fn add_world(s: &mut String)
    ensures
        final(s)@ == old(s)@ + " World!"@,
{
    s.append(" World!");
}

} // verus!
