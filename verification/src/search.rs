//! Substring search and splicing over character positions.
//!
//! The aligner locates a token's surface text inside the evolving output
//! buffer and replaces exactly one occurrence of it.  Both the unrestricted
//! search used for phonetic tokens and the cursor-bounded search used for
//! space insertion are instances of `find_spec`, a first-match-at-or-after
//! search.  All positions are character indices.

use vstd::prelude::*;
use vstd::string::*;

verus! {

/// The first position `i >= from` at which `pat` occurs in `hay`, if any.
/// An empty pattern matches at `from` itself (as the standard library's
/// substring search does).  Positions below zero or past the end never match.
pub open spec fn find_spec(hay: Seq<char>, pat: Seq<char>, from: int) -> Option<int>
    decreases hay.len() + 1 - from,
{
    if from < 0 || from + pat.len() > hay.len() {
        None
    } else if hay.subrange(from, from + pat.len()) == pat {
        Some(from)
    } else {
        find_spec(hay, pat, from + 1)
    }
}

/// A found position is a real match: it lies at or after `from`, fits in the
/// haystack, and the characters there are exactly the pattern.
pub proof fn lemma_find_spec_some(hay: Seq<char>, pat: Seq<char>, from: int, i: int)
    requires
        find_spec(hay, pat, from) == Some(i),
    ensures
        0 <= from <= i,
        i + pat.len() <= hay.len(),
        hay.subrange(i, i + pat.len()) == pat,
    decreases hay.len() + 1 - from,
{
    if from < 0 || from + pat.len() > hay.len() {
    } else if hay.subrange(from, from + pat.len()) == pat {
    } else {
        lemma_find_spec_some(hay, pat, from + 1, i);
    }
}

/// Whether `pat` occurs in `hay` exactly at position `i`.
fn match_at(hay: &str, pat: &str, i: usize) -> (r: bool)
    requires
        i + pat@.len() <= hay@.len(),
    ensures
        r == (hay@.subrange(i as int, i as int + pat@.len() as int) == pat@),
{
    let hlen = hay.unicode_len();
    let plen = pat.unicode_len();
    let mut j: usize = 0;
    while j < plen
        invariant
            plen == pat@.len(),
            hlen == hay@.len(),
            i + plen <= hlen,
            j <= plen,
            forall|k: int| 0 <= k < j ==> hay@[i + k] == pat@[k],
        decreases plen - j,
    {
        if hay.get_char(i + j) != pat.get_char(j) {
            proof {
                let sub = hay@.subrange(i as int, i as int + plen as int);
                assert(sub[j as int] == hay@[i + j as int]);
                assert(sub[j as int] != pat@[j as int]);
            }
            return false;
        }
        j = j + 1;
    }
    proof {
        assert(hay@.subrange(i as int, i as int + plen as int) =~= pat@);
    }
    true
}

/// First occurrence of `pat` in `hay` at or after position `from`.
pub fn find_from(hay: &str, pat: &str, from: usize) -> (r: Option<usize>)
    ensures
        match r {
            Some(i) => find_spec(hay@, pat@, from as int) == Some(i as int),
            None => find_spec(hay@, pat@, from as int) is None,
        },
{
    let hlen = hay.unicode_len();
    let plen = pat.unicode_len();
    if plen > hlen || from > hlen - plen {
        return None;
    }
    if plen == 0 {
        proof {
            assert(hay@.subrange(from as int, from as int) =~= pat@);
        }
        return Some(from);
    }
    let mut i: usize = from;
    while i <= hlen - plen
        invariant
            hlen == hay@.len(),
            plen == pat@.len(),
            1 <= plen <= hlen,
            from <= i <= hlen - plen + 1,
            find_spec(hay@, pat@, from as int) == find_spec(hay@, pat@, i as int),
        decreases hlen - i,
    {
        if match_at(hay, pat, i) {
            return Some(i);
        }
        i = i + 1;
    }
    None
}

/// The buffer with the `plen` characters at position `i` replaced by `repl`.
/// With `plen == 0` this is an insertion.
pub open spec fn splice_spec(buf: Seq<char>, i: int, plen: int, repl: Seq<char>) -> Seq<char> {
    buf.subrange(0, i) + repl + buf.subrange(i + plen, buf.len() as int)
}

/// Replace the `plen` characters of `buf` at position `i` with `repl`.
pub fn splice(buf: &str, i: usize, plen: usize, repl: &str) -> (r: String)
    requires
        i + plen <= buf@.len(),
    ensures
        r@ == splice_spec(buf@, i as int, plen as int, repl@),
{
    let n = buf.unicode_len();
    let mut out = buf.substring_char(0, i).to_owned();
    out.append(repl);
    out.append(buf.substring_char(i + plen, n));
    out
}

} // verus!
