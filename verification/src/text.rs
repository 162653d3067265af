//! Literal substring replacement, the engine of the template formatter.

use vstd::prelude::*;
use vstd::string::*;

verus! {

/// One left-to-right pass of literal replacement: at each position, if the
/// pattern starts there the value is emitted and the pattern skipped,
/// otherwise the character is kept. Matches never overlap.
pub open spec fn replace_all(s: Seq<char>, pat: Seq<char>, val: Seq<char>) -> Seq<char>
    decreases s.len(),
{
    if pat.len() == 0 || s.len() < pat.len() {
        s
    } else if s.subrange(0, pat.len() as int) == pat {
        val + replace_all(s.skip(pat.len() as int), pat, val)
    } else {
        seq![s[0]] + replace_all(s.skip(1), pat, val)
    }
}

/// Whether `pat` occurs as a contiguous run inside `s`.
pub open spec fn occurs(s: Seq<char>, pat: Seq<char>) -> bool {
    exists|i: int|
        0 <= i && i + pat.len() <= s.len() && #[trigger] s.subrange(i, i + pat.len() as int)
            == pat
}

/// Replacing a pattern that does not occur changes nothing, whatever the
/// replacement value.
pub proof fn lemma_replace_absent(s: Seq<char>, pat: Seq<char>, val: Seq<char>)
    requires
        pat.len() > 0,
        !occurs(s, pat),
    ensures
        replace_all(s, pat, val) == s,
    decreases s.len(),
{
    if s.len() < pat.len() {
    } else if s.subrange(0, pat.len() as int) == pat {
        assert(s.subrange(0, 0 + pat.len() as int) == pat);
        assert(occurs(s, pat));
    } else {
        assert forall|i: int|
            0 <= i && i + pat.len() <= s.skip(1).len() implies #[trigger] s.skip(1).subrange(
            i,
            i + pat.len() as int,
        ) != pat by {
            if s.skip(1).subrange(i, i + pat.len() as int) == pat {
                assert(s.skip(1).subrange(i, i + pat.len() as int) =~= s.subrange(
                    i + 1,
                    i + 1 + pat.len() as int,
                ));
                assert(occurs(s, pat));
            }
        }
        lemma_replace_absent(s.skip(1), pat, val);
        assert(seq![s[0]] + s.skip(1) =~= s);
    }
}

/// Whether `pat` starts at position `i` of `s`.
fn matches_at(s: &str, i: usize, pat: &str, pat_len: usize) -> (r: bool)
    requires
        pat_len == pat@.len(),
        i + pat_len <= s@.len(),
        s@.len() <= usize::MAX,
    ensures
        r == (s@.subrange(i as int, i as int + pat_len as int) == pat@),
{
    let mut j: usize = 0;
    while j < pat_len
        invariant
            0 <= j <= pat_len,
            pat_len == pat@.len(),
            i + pat_len <= s@.len(),
            s@.len() <= usize::MAX,
            forall|k: int| 0 <= k < j ==> s@[i + k] == pat@[k],
        decreases pat_len - j,
    {
        if s.get_char(i + j) != pat.get_char(j) {
            proof {
                assert(s@.subrange(i as int, i as int + pat_len as int)[j as int] == s@[i + j]);
            }
            return false;
        }
        j = j + 1;
    }
    proof {
        assert(s@.subrange(i as int, i as int + pat_len as int) =~= pat@);
    }
    true
}

/// Replaces every non-overlapping occurrence of `pat` in `s` with `val`,
/// in one pass from the left.
pub fn replace(s: &str, pat: &str, val: &str) -> (r: String)
    requires
        pat@.len() > 0,
    ensures
        r@ == replace_all(s@, pat@, val@),
{
    let s_len = s.unicode_len();
    let pat_len = pat.unicode_len();
    let mut out = String::new();
    let mut i: usize = 0;
    proof {
        assert(s@.skip(0) =~= s@);
    }
    while i < s_len
        invariant
            0 <= i <= s_len,
            s_len == s@.len(),
            pat_len == pat@.len(),
            pat_len > 0,
            replace_all(s@, pat@, val@) == out@ + replace_all(s@.skip(i as int), pat@, val@),
        decreases s_len - i,
    {
        proof {
            assert(s@.skip(i as int).len() == s_len - i);
        }
        if pat_len <= s_len - i && matches_at(s, i, pat, pat_len) {
            out.append(val);
            proof {
                assert(s@.skip(i as int).subrange(0, pat_len as int) =~= s@.subrange(
                    i as int,
                    i as int + pat_len as int,
                ));
                assert(s@.skip(i as int).skip(pat_len as int) =~= s@.skip(
                    i as int + pat_len as int,
                ));
            }
            i = i + pat_len;
        } else {
            let piece = s.substring_char(i, i + 1);
            out.append(piece);
            proof {
                if pat_len <= s_len - i {
                    assert(s@.skip(i as int).subrange(0, pat_len as int) =~= s@.subrange(
                        i as int,
                        i as int + pat_len as int,
                    ));
                }
                assert(s@.skip(i as int)[0] == s@[i as int]);
                assert(piece@ =~= seq![s@[i as int]]);
                assert(s@.skip(i as int).skip(1) =~= s@.skip(i as int + 1));
            }
            i = i + 1;
        }
    }
    proof {
        assert(s@.skip(s_len as int) =~= Seq::<char>::empty());
    }
    out
}

/// Whether `pat` occurs anywhere in `s`.
pub fn contains(s: &str, pat: &str) -> (r: bool)
    requires
        pat@.len() > 0,
    ensures
        r == occurs(s@, pat@),
{
    let s_len = s.unicode_len();
    let pat_len = pat.unicode_len();
    if pat_len > s_len {
        return false;
    }
    let mut i: usize = 0;
    while i <= s_len - pat_len
        invariant
            0 <= i,
            pat_len <= s_len,
            i <= s_len - pat_len + 1,
            s_len == s@.len(),
            pat_len == pat@.len(),
            pat_len > 0,
            forall|k: int|
                0 <= k < i ==> #[trigger] s@.subrange(k, k + pat_len as int) != pat@,
        decreases s_len - i,
    {
        if matches_at(s, i, pat, pat_len) {
            return true;
        }
        i = i + 1;
    }
    false
}

} // verus!
