//! String helpers the controller logic needs: substring search (for the
//! mention check and the member filter), case folding, and a byte-bounded
//! prefix for notification bodies.

use vstd::prelude::*;
use vstd::string::StringSliceAdditionalSpecFns;
use vstd::utf8::encode_utf8;

verus! {

/// `n` occurs in `h` starting at byte offset `i`.
pub open spec fn is_match_at(h: Seq<u8>, n: Seq<u8>, i: int) -> bool {
    0 <= i && i + n.len() <= h.len() && h.subrange(i, i + n.len()) == n
}

/// `n` occurs contiguously somewhere in `h`.
pub open spec fn contains_bytes(h: Seq<u8>, n: Seq<u8>) -> bool {
    exists|i: int| is_match_at(h, n, i)
}

/// Whether `needle` occurs in `haystack`, compared byte for byte.
pub fn contains_sub(haystack: &str, needle: &str) -> (r: bool)
    ensures
        r == contains_bytes(haystack.spec_bytes(), needle.spec_bytes()),
{
    let h = haystack.as_bytes();
    let n = needle.as_bytes();
    let hl = h.len();
    let nl = n.len();
    if nl > hl {
        proof {
            assert(forall|i: int| !is_match_at(h@, n@, i));
        }
        return false;
    }
    if nl == 0 {
        proof {
            assert(h@.subrange(0, 0) =~= n@);
            assert(is_match_at(h@, n@, 0));
        }
        return true;
    }
    let mut i: usize = 0;
    while i <= hl - nl
        invariant
            h@ == haystack.spec_bytes(),
            n@ == needle.spec_bytes(),
            hl == h@.len(),
            nl == n@.len(),
            0 < nl <= hl,
            i <= hl - nl + 1,
            forall|k: int| 0 <= k < i ==> !is_match_at(h@, n@, k),
        decreases hl + 1 - i,
    {
        let mut j: usize = 0;
        let mut ok = true;
        while j < nl
            invariant
                hl == h@.len(),
                nl == n@.len(),
                nl <= hl,
                i <= hl - nl,
                j <= nl,
                ok ==> forall|m: int| 0 <= m < j ==> h@[i + m] == n@[m],
                !ok ==> !is_match_at(h@, n@, i as int),
            decreases nl - j,
        {
            if h[i + j] != n[j] {
                proof {
                    if is_match_at(h@, n@, i as int) {
                        assert(h@.subrange(i as int, i + nl)[j as int] == n@[j as int]);
                    }
                }
                ok = false;
                j = nl;
            } else {
                j = j + 1;
            }
        }
        if ok {
            proof {
                assert(h@.subrange(i as int, i + nl) =~= n@);
                assert(is_match_at(h@, n@, i as int));
                assert(contains_bytes(h@, n@));
            }
            return true;
        }
        i = i + 1;
    }
    proof {
        assert forall|k: int| !is_match_at(h@, n@, k) by {
            if is_match_at(h@, n@, k) {
                assert(0 <= k < i);
            }
        }
    }
    false
}

/// One text occurs in another, compared byte for byte (how the standard
/// library's substring test compares them).
pub open spec fn string_contains(h: Seq<char>, n: Seq<char>) -> bool {
    contains_bytes(encode_utf8(h), encode_utf8(n))
}

/// What case folding makes of a sequence of characters. The full folding
/// rules live in the standard library; only the name is stated here and
/// every fold of the same characters is the same.
pub uninterp spec fn lower_of(s: Seq<char>) -> Seq<char>;

/// Relies on str::to_lowercase: the lowercased text, a function of the
/// characters alone.
#[verifier::external_body]
pub fn lowercase(s: &str) -> (r: String)
    ensures
        r@ == lower_of(s@),
{
    s.to_lowercase()
}

/// The member filter: the folded alias contains the folded filter text.
pub open spec fn matches_filter(alias: Seq<char>, filter: Seq<char>) -> bool {
    contains_bytes(encode_utf8(lower_of(alias)), encode_utf8(lower_of(filter)))
}

/// Whether an alias matches the member-search text, case-insensitively.
pub fn alias_matches(alias: &str, filter: &str) -> (r: bool)
    ensures
        r == matches_filter(alias@, filter@),
{
    let a = lowercase(alias);
    let f = lowercase(filter);
    contains_sub(a.as_str(), f.as_str())
}

/// `r` is a prefix of `s` and, unless it is all of `s`, fits in `max`
/// bytes.
pub open spec fn is_bounded_prefix(r: Seq<char>, s: Seq<char>, max: int) -> bool {
    &&& (r == s || encode_utf8(r).len() <= max)
    &&& exists|c: int|
        {
            &&& 0 <= c <= encode_utf8(s).len()
            &&& encode_utf8(r) == encode_utf8(s).subrange(0, c)
        }
}

/// The longest prefix of `s` that fits in `max` bytes and ends on a
/// character boundary: the whole text when it already fits, a prefix of at
/// most `max` bytes otherwise.
pub fn truncate_str(s: &str, max: usize) -> (r: String)
    ensures
        is_bounded_prefix(r@, s@, max as int),
{
    if s.len() <= max {
        let r = s.to_owned();
        proof {
            let c = s.spec_bytes().len() as int;
            assert(encode_utf8(r@) =~= s.spec_bytes().subrange(0, c));
            assert(is_bounded_prefix(r@, s@, max as int));
        }
        return r;
    }
    proof {
        vstd::utf8::encode_utf8_valid_utf8(s@);
        vstd::utf8::is_char_boundary_start_end_of_seq(s.spec_bytes());
    }
    let mut mid = max;
    while !s.is_char_boundary(mid)
        invariant
            mid <= max,
            vstd::utf8::valid_utf8(s.spec_bytes()),
            vstd::utf8::is_char_boundary(s.spec_bytes(), 0),
        decreases mid,
    {
        // byte offset zero is always a boundary, so the scan stops
        assert(mid > 0);
        mid = mid - 1;
    }
    let (head, _) = s.split_at(mid);
    let r = head.to_owned();
    proof {
        let c = mid as int;
        assert(encode_utf8(r@) =~= s.spec_bytes().subrange(0, c));
        assert(is_bounded_prefix(r@, s@, max as int));
    }
    r
}

} // verus!
