use vstd::prelude::*;

verus! {

/// `s` with every non-overlapping occurrence of `pat`, scanned left to right,
/// replaced by `rep`.
pub open spec fn replace_all(s: Seq<char>, pat: Seq<char>, rep: Seq<char>) -> Seq<char>
    decreases s.len(),
{
    if s.len() == 0 {
        seq![]
    } else if 0 < pat.len() <= s.len() && s.subrange(0, pat.len() as int) == pat {
        rep + replace_all(s.skip(pat.len() as int), pat, rep)
    } else {
        seq![s[0]] + replace_all(s.skip(1), pat, rep)
    }
}

/// Whether `pat` occurs in `s` starting at character `i`.
fn occurs_at(s: &str, s_len: usize, i: usize, pat: &str, pat_len: usize) -> (found: bool)
    requires
        s_len == s@.len(),
        pat_len == pat@.len(),
        i <= s_len,
    ensures
        found == (pat_len <= s_len - i && s@.subrange(i as int, i + pat_len) == pat@),
{
    if pat_len > s_len - i {
        return false;
    }
    let mut j: usize = 0;
    while j < pat_len
        invariant
            s_len == s@.len(),
            pat_len == pat@.len(),
            i + pat_len <= s_len,
            j <= pat_len,
            forall|k: int| 0 <= k < j ==> s@[i + k] == pat@[k],
        decreases pat_len - j,
    {
        if s.get_char(i + j) != pat.get_char(j) {
            assert(s@.subrange(i as int, i + pat_len)[j as int] != pat@[j as int]);
            return false;
        }
        j += 1;
    }
    assert(s@.subrange(i as int, i + pat_len) =~= pat@);
    true
}

/// Replaces every occurrence of the non-empty pattern `pat` in `s` by `rep`.
pub fn replace(s: &str, pat: &str, rep: &str) -> (out: String)
    requires
        pat@.len() > 0,
    ensures
        out@ == replace_all(s@, pat@, rep@),
{
    let s_len = s.unicode_len();
    let pat_len = pat.unicode_len();
    let mut out = String::new();
    let mut i: usize = 0;
    assert(s@.skip(0) =~= s@);
    while i < s_len
        invariant
            s_len == s@.len(),
            pat_len == pat@.len(),
            pat_len > 0,
            i <= s_len,
            out@ + replace_all(s@.skip(i as int), pat@, rep@) == replace_all(s@, pat@, rep@),
        decreases s_len - i,
    {
        let ghost rest = s@.skip(i as int);
        if occurs_at(s, s_len, i, pat, pat_len) {
            assert(rest.subrange(0, pat_len as int) =~= s@.subrange(i as int, i + pat_len));
            assert(rest.skip(pat_len as int) =~= s@.skip(i + pat_len));
            out.append(rep);
            i += pat_len;
        } else {
            assert(rest.subrange(0, pat_len as int) =~= s@.subrange(i as int, i + pat_len) || pat_len > rest.len());
            assert(rest.skip(1) =~= s@.skip(i + 1));
            let piece = s.substring_char(i, i + 1);
            assert(piece@ =~= seq![rest[0]]);
            out.append(piece);
            i += 1;
        }
    }
    assert(s@.skip(s_len as int) =~= Seq::<char>::empty());
    out
}

/// Whether `s` begins with `prefix`.
pub open spec fn has_prefix(s: Seq<char>, prefix: Seq<char>) -> bool {
    prefix.len() <= s.len() && s.subrange(0, prefix.len() as int) == prefix
}

/// Whether the text begins with the prefix.
pub fn starts_with(s: &str, prefix: &str) -> (found: bool)
    ensures
        found == has_prefix(s@, prefix@),
{
    let s_len = s.unicode_len();
    let prefix_len = prefix.unicode_len();
    occurs_at(s, s_len, 0, prefix, prefix_len)
}

} // verus!
