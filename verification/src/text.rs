use vstd::prelude::*;

verus! {

/// `p` is a prefix of `s`.
pub open spec fn has_prefix(s: Seq<char>, p: Seq<char>) -> bool {
    p.len() <= s.len() && s.subrange(0, p.len() as int) == p
}

/// `p` occurs in `s` at position `i`.
pub open spec fn occurs_at(s: Seq<char>, p: Seq<char>, i: int) -> bool {
    0 <= i && i + p.len() <= s.len() && s.subrange(i, i + p.len()) == p
}

/// `p` occurs somewhere in `s`.
pub open spec fn has_infix(s: Seq<char>, p: Seq<char>) -> bool {
    exists|i: int| occurs_at(s, p, i)
}

/// `p` is a prefix of `s` exactly when `s` is at least as long and agrees
/// with `p` character by character over `p`'s length.
pub proof fn lemma_prefix_by_chars(s: Seq<char>, p: Seq<char>)
    ensures
        has_prefix(s, p) == (p.len() <= s.len() && forall|k: int| 0 <= k < p.len() ==> s[k] == p[k]),
{
    if p.len() <= s.len() && forall|k: int| 0 <= k < p.len() ==> s[k] == p[k] {
        assert(s.subrange(0, p.len() as int) =~= p);
    }
    if has_prefix(s, p) {
        assert forall|k: int| 0 <= k < p.len() implies s[k] == p[k] by {
            assert(s.subrange(0, p.len() as int)[k] == s[k]);
        }
    }
}

/// From position `i` on, `s` agrees with `p` character by character.
pub open spec fn agrees_from(s: Seq<char>, p: Seq<char>, i: int) -> bool {
    0 <= i && i + p.len() <= s.len() && forall|k: int| 0 <= k < p.len() ==> s[i + k] == #[trigger] p[k]
}

/// `p` occurs in `s` exactly when there is a position from which `s` agrees
/// with `p` character by character over `p`'s length.
pub proof fn lemma_infix_by_chars(s: Seq<char>, p: Seq<char>)
    ensures
        has_infix(s, p) == (exists|i: int| #[trigger] agrees_from(s, p, i)),
{
    if has_infix(s, p) {
        let i = choose|i: int| occurs_at(s, p, i);
        assert forall|k: int| 0 <= k < p.len() implies s[i + k] == #[trigger] p[k] by {
            assert(s.subrange(i, i + p.len())[k] == s[i + k]);
        }
        assert(agrees_from(s, p, i));
    }
    if exists|i: int| #[trigger] agrees_from(s, p, i) {
        let i = choose|i: int| #[trigger] agrees_from(s, p, i);
        assert(s.subrange(i, i + p.len()) =~= p);
        assert(occurs_at(s, p, i));
    }
}

/// Whether `p` occurs in `s` at position `i`, where it fits.
fn matches_at(s: &str, p: &str, i: usize, slen: usize, plen: usize) -> (r: bool)
    requires
        slen == s@.len(),
        plen == p@.len(),
        i + plen <= slen,
    ensures
        r == occurs_at(s@, p@, i as int),
{
    let mut j: usize = 0;
    while j < plen
        invariant
            slen == s@.len(),
            plen == p@.len(),
            i + plen <= slen,
            j <= plen,
            forall|k: int| 0 <= k < j ==> s@[i + k] == p@[k],
        decreases plen - j,
    {
        if s.get_char(i + j) != p.get_char(j) {
            assert(s@.subrange(i as int, i + plen)[j as int] != p@[j as int]);
            return false;
        }
        j = j + 1;
    }
    assert(s@.subrange(i as int, i + plen) =~= p@);
    true
}

/// Whether `s` starts with `p`.
pub fn starts_with(s: &str, p: &str) -> (r: bool)
    ensures
        r == has_prefix(s@, p@),
{
    let slen = s.unicode_len();
    let plen = p.unicode_len();
    if plen > slen {
        return false;
    }
    matches_at(s, p, 0, slen, plen)
}

/// Whether `p` occurs in `s`.
pub fn contains(s: &str, p: &str) -> (r: bool)
    ensures
        r == has_infix(s@, p@),
{
    let slen = s.unicode_len();
    let plen = p.unicode_len();
    if plen > slen {
        assert forall|i: int| !occurs_at(s@, p@, i) by {}
        return false;
    }
    let last = slen - plen;
    let mut i: usize = 0;
    loop
        invariant
            slen == s@.len(),
            plen == p@.len(),
            last + plen == slen,
            i <= last,
            forall|k: int| 0 <= k < i ==> !occurs_at(s@, p@, k),
        ensures
            forall|k: int| 0 <= k <= last ==> !occurs_at(s@, p@, k),
        decreases last - i,
    {
        if matches_at(s, p, i, slen, plen) {
            return true;
        }
        if i == last {
            break;
        }
        i = i + 1;
    }
    assert forall|k: int| !occurs_at(s@, p@, k) by {}
    false
}

} // verus!
