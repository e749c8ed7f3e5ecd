//! Utility functions for strings: a tokenizer that narrows a cursor to the
//! remainder after each delimiter occurrence, and once no delimiter remains,
//! keeps yielding the final remainder unchanged.

use vstd::prelude::*;
use vstd::string::StrSliceExecFns;

verus! {

/// Holds when no occurrence of `d` appears in the first `n` characters of `s`.
pub open spec fn no_delim_before(s: Seq<char>, d: char, n: int) -> bool {
    forall|k: int| 0 <= k < n ==> s[k] != d
}

/// Holds when position `i` carries the first occurrence of `d` in `s`.
pub open spec fn is_first_delim(s: Seq<char>, d: char, i: int) -> bool {
    &&& 0 <= i < s.len()
    &&& s[i] == d
    &&& no_delim_before(s, d, i)
}

/// Position of the first occurrence of `delim` among the characters of `s`,
/// if there is one.
fn find_delim(s: &str, delim: char) -> (r: Option<usize>)
    ensures
        match r {
            Some(i) => is_first_delim(s@, delim, i as int),
            None => no_delim_before(s@, delim, s@.len() as int),
        },
{
    let len = s.unicode_len();
    let mut i: usize = 0;
    while i < len
        invariant
            i <= len,
            len == s@.len(),
            no_delim_before(s@, delim, i as int),
        decreases len - i,
    {
        if s.get_char(i) == delim {
            return Some(i);
        }
        i += 1;
    }
    None
}

/// Splits a string into tokens.
///
/// A sequence of calls to this function splits `s` into the tokens separated
/// by `delim`: each call yields the characters before the first delimiter and
/// narrows the cursor to the characters after it. Once no delimiter remains,
/// every call yields the whole remainder and leaves the cursor unchanged.
pub fn strtok<'a>(s: &mut &'a str, delim: char) -> (r: &'a str)
    ensures
        no_delim_before(old(s)@, delim, old(s)@.len() as int) ==> r@ == old(s)@ && final(s)@
            == old(s)@,
        forall|i: int|
            is_first_delim(old(s)@, delim, i) ==> r@ == old(s)@.subrange(0, i) && final(s)@ == old(
                s,
            )@.subrange(i + 1, old(s)@.len() as int),
{
    let cur: &'a str = *s;
    let pos = find_delim(cur, delim);
    if let None = pos {
        return cur;
    }

    let pos = pos.unwrap();
    let len = cur.unicode_len();
    let result = cur.substring_char(0, pos);
    *s = cur.substring_char(pos + 1, len);

    proof {
        assert forall|i: int| is_first_delim(old(s)@, delim, i) implies i == pos as int by {
            if i < pos as int {
                assert(old(s)@[i] != delim);
            }
        }
    }
    result
}

} // verus!
