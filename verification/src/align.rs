//! The Aligner/Reconstructor: the central algorithm.
//!
//! It walks the tagger's tokens in order, locates each token's surface text
//! inside the evolving output buffer, applies the classification-driven
//! transformations, and splices the results back into the buffer while
//! carrying a cursor and a pending-space flag between iterations.  Phonetic
//! tokens are rewritten at the first occurrence of their surface anywhere in
//! the buffer; an opaque token's space insertion searches only from the
//! cursor, so an earlier, already-spaced occurrence is never re-targeted.

use vstd::prelude::*;
use vstd::string::*;

use crate::normalize::nfkc_normalize;
use crate::normalize::nfkc_of;
use crate::romaji::alnum_char;
use crate::romaji::ascii_capital_of;
use crate::romaji::ascii_lower;
use crate::romaji::capitalize_spec;
use crate::romaji::encode_macrons;
use crate::romaji::is_alphanumeric;
use crate::romaji::kana_transliterable;
use crate::romaji::macron_spec;
use crate::romaji::romaji_of;
use crate::romaji::to_romaji;
use crate::romaji::uppercase_first_character;
use crate::search::find_spec;
use crate::search::find_from;
use crate::search::lemma_find_spec_some;
use crate::search::splice;
use crate::search::splice_spec;
use crate::token::SpecToken;
use crate::token::Token;
use crate::token::spec_is_noun;
use crate::token::spec_is_punctuation;
use crate::token::spec_reading;

verus! {

/// Why a reconstruction failed.  Either failure means the tagger's output and
/// the buffer have desynchronized; there is no safe partial output.
#[derive(Debug, Clone, Copy, PartialEq, Eq, Structural)]
pub enum RomanizeError {
    /// A token's feature list is empty, so it cannot be classified.
    MissingFeatures,
    /// A token's surface text does not occur where it was searched for.
    SurfaceNotFound,
}

/// The models of a sequence of tokens.
pub open spec fn views_of(ts: Seq<Token>) -> Seq<SpecToken> {
    ts.map_values(|t: Token| t@)
}

/// Every phonetic token's reading is one the transliterator returns normally
/// on (see `kana_transliterable` for the two input families this version of
/// it panics on).
pub open spec fn tokens_transliterable(toks: Seq<SpecToken>) -> bool {
    forall|i: int|
        0 <= i < toks.len() && spec_reading(#[trigger] toks[i]) is Some ==> kana_transliterable(
            spec_reading(toks[i])->Some_0,
        )
}

/// Spacing Policy for an opaque token: a space is inserted before it exactly
/// when the previous word asked for one and the token starts with an
/// alphanumeric character (never before bracket-like opaque tokens).
pub open spec fn opaque_needs_space(pending: bool, surface: Seq<char>) -> bool {
    pending && surface.len() > 0 && alnum_char(surface[0])
}

/// The replacement text for a phonetic token: the transliterated reading,
/// its first letter uppercased when the token is a noun, hyphen length
/// markers rewritten as combining macrons, and one leading space when the
/// previous word asked for one.
pub open spec fn replacement_spec(t: SpecToken, reading: Seq<char>, pending: bool) -> Seq<
    char,
> {
    let base = romaji_of(reading);
    let capped = if spec_is_noun(t) {
        capitalize_spec(base)
    } else {
        base
    };
    let marked = macron_spec(capped);
    if pending {
        " "@ + marked
    } else {
        marked
    }
}

/// One token's effect on the aligner state: the buffer, the cursor and the
/// pending-space flag.  Punctuation only clears the flag.  A phonetic token
/// replaces the first occurrence of its surface anywhere in the buffer.  An
/// opaque token at most inserts one space, at the first occurrence of its
/// surface at or after the cursor.  Either kind moves the cursor to where the
/// unrestricted search found the surface, before any splice.
pub open spec fn step_spec(buf: Seq<char>, last: int, pending: bool, t: SpecToken) -> Result<
    (Seq<char>, int, bool),
    RomanizeError,
> {
    if t.features.len() == 0 {
        Err(RomanizeError::MissingFeatures)
    } else if spec_is_punctuation(t) {
        Ok((buf, last, false))
    } else {
        match find_spec(buf, t.surface, 0) {
            None => Err(RomanizeError::SurfaceNotFound),
            Some(idx) => match spec_reading(t) {
                Some(reading) => Ok(
                    (
                        splice_spec(
                            buf,
                            idx,
                            t.surface.len() as int,
                            replacement_spec(t, reading, pending),
                        ),
                        idx,
                        true,
                    ),
                ),
                None => {
                    if opaque_needs_space(pending, t.surface) {
                        match find_spec(buf, t.surface, last) {
                            None => Err(RomanizeError::SurfaceNotFound),
                            Some(j) => Ok((splice_spec(buf, j, 0, " "@), idx, false)),
                        }
                    } else {
                        Ok((buf, idx, false))
                    }
                },
            },
        }
    }
}

/// The aligner's token loop: fold `step_spec` over the tokens, starting from
/// the given buffer, cursor and flag; the first failing token decides the
/// error.
pub open spec fn run_spec(buf: Seq<char>, toks: Seq<SpecToken>, last: int, pending: bool) -> Result<
    Seq<char>,
    RomanizeError,
> decreases toks.len() {
    if toks.len() == 0 {
        Ok(buf)
    } else {
        match step_spec(buf, last, pending, toks[0]) {
            Ok(st) => run_spec(st.0, toks.skip(1), st.1, st.2),
            Err(e) => Err(e),
        }
    }
}

/// The whole reconstruction: run the token loop over the text with cursor
/// zero and no pending space, then normalize the finished buffer.
pub open spec fn reconstruct_spec(text: Seq<char>, toks: Seq<SpecToken>) -> Result<
    Seq<char>,
    RomanizeError,
> {
    match run_spec(text, toks, 0, false) {
        Ok(b) => Ok(nfkc_of(b)),
        Err(e) => Err(e),
    }
}

/// A token classified as punctuation has no effect on the output: it leaves
/// the buffer and the cursor exactly as they are and inserts no space; it
/// only clears the pending-space flag.
pub proof fn lemma_punctuation_preservation(
    buf: Seq<char>,
    last: int,
    pending: bool,
    t: SpecToken,
)
    ensures
        t.features.len() > 0 && spec_is_punctuation(t) ==> step_spec(buf, last, pending, t)
            == Ok::<(Seq<char>, int, bool), RomanizeError>((buf, last, false)),
{
}

/// A phonetic token rewrites exactly one occurrence of its surface text — the
/// first one — and never all of them: in the stepped buffer, everything
/// before the match is unchanged, the match itself is the replacement text,
/// and everything after the match is carried over unchanged (shifted by the
/// difference in length).
pub proof fn lemma_single_substitution(
    buf: Seq<char>,
    last: int,
    pending: bool,
    t: SpecToken,
    idx: int,
)
    ensures
        (t.features.len() > 0 && !spec_is_punctuation(t) && spec_reading(t) is Some && find_spec(
            buf,
            t.surface,
            0,
        ) == Some(idx)) ==> {
            let repl = replacement_spec(t, spec_reading(t)->Some_0, pending);
            let stepped = splice_spec(buf, idx, t.surface.len() as int, repl);
            &&& step_spec(buf, last, pending, t) == Ok::<(Seq<char>, int, bool), RomanizeError>(
                (stepped, idx, true),
            )
            &&& stepped.len() == buf.len() - t.surface.len() + repl.len()
            &&& forall|m: int| 0 <= m < idx ==> stepped[m] == buf[m]
            &&& forall|m: int| 0 <= m < repl.len() ==> stepped[idx + m] == repl[m]
            &&& forall|m: int|
                idx + t.surface.len() <= m < buf.len() ==> stepped[m - t.surface.len()
                    + repl.len()] == buf[m]
        },
{
    if t.features.len() > 0 && !spec_is_punctuation(t) && spec_reading(t) is Some && find_spec(
        buf,
        t.surface,
        0,
    ) == Some(idx) {
        lemma_find_spec_some(buf, t.surface, 0, idx);
        let slen = t.surface.len() as int;
        let repl = replacement_spec(t, spec_reading(t)->Some_0, pending);
        let stepped = splice_spec(buf, idx, slen, repl);
        assert forall|m: int| idx + slen <= m < buf.len() implies stepped[m - slen + repl.len()]
            == buf[m] by {
            assert(stepped[m - slen + repl.len()] == buf.subrange(idx + slen, buf.len() as int)[m
                - slen - idx]);
        }
    }
}

/// Build the replacement text for a phonetic token with the given reading.
/// When the token is a noun and the transliterator's rendering begins with an
/// ASCII lowercase letter, the replacement's first letter (after the optional
/// leading space) is the corresponding capital; when it is not a noun, the
/// rendering's own case is kept.
pub fn build_replacement(t: &Token, reading: &str, pending: bool) -> (r: String)
    requires
        t@.features.len() > 0,
        kana_transliterable(reading@),
    ensures
        r@ == replacement_spec(t@, reading@, pending),
        spec_is_noun(t@) && romaji_of(reading@).len() > 0 && ascii_lower(romaji_of(reading@)[0])
            ==> ascii_capital_of(
            romaji_of(reading@)[0],
            r@[if pending {
                1int
            } else {
                0int
            }],
        ),
{
    let ghost b = romaji_of(reading@);
    let base = to_romaji(reading);
    let capped = if t.is_noun() {
        uppercase_first_character(base.as_str())
    } else {
        base
    };
    let marked = encode_macrons(capped.as_str());
    proof {
        reveal_strlit(" ");
        if spec_is_noun(t@) && b.len() > 0 && ascii_lower(b[0]) {
            assert(ascii_capital_of(b[0], capped@[0]));
            assert(capped@[0] != '-');
            assert(marked@[0] == capped@[0]);
        }
    }
    if pending {
        let mut out = String::from_str(" ");
        out.append(marked.as_str());
        out
    } else {
        marked
    }
}

/// Aligner/Reconstructor: rewrite `text` according to `tokens`, the tagger's
/// ordered token sequence for it, and normalize the result.  Returns the
/// fully formed romanized string, or the error for the first token whose
/// features are missing or whose surface cannot be located — never a partial
/// string.  Callers test each reading with `transliterable` first; the
/// precondition keeps out the inputs on which the external transliterator
/// itself panics.
pub fn reconstruct(text: &str, tokens: &Vec<Token>) -> (r: Result<String, RomanizeError>)
    requires
        tokens_transliterable(views_of(tokens@)),
    ensures
        match r {
            Ok(s) => reconstruct_spec(text@, views_of(tokens@)) == Ok::<
                Seq<char>,
                RomanizeError,
            >(s@),
            Err(e) => reconstruct_spec(text@, views_of(tokens@)) == Err::<
                Seq<char>,
                RomanizeError,
            >(e),
        },
{
    let ghost toks = views_of(tokens@);
    let mut buf: String = text.to_owned();
    let mut last: usize = 0;
    let mut pending: bool = false;
    let n = tokens.len();
    let mut k: usize = 0;
    proof {
        assert(toks.skip(0) =~= toks);
    }
    while k < n
        invariant
            n == tokens@.len(),
            toks == views_of(tokens@),
            tokens_transliterable(toks),
            toks.len() == n,
            k <= n,
            run_spec(text@, toks, 0, false) == run_spec(
                buf@,
                toks.skip(k as int),
                last as int,
                pending,
            ),
        decreases n - k,
    {
        let ghost rest = toks.skip(k as int);
        let ghost pre_buf = buf@;
        let ghost pre_last = last as int;
        let ghost pre_pending = pending;
        let t = &tokens[k];
        proof {
            assert(toks[k as int] == tokens@[k as int]@);
            assert(rest[0] == toks[k as int]);
            assert(rest.skip(1) =~= toks.skip(k as int + 1));
            assert(t@.features.len() == t.features@.len());
        }
        if t.features.len() == 0 {
            proof {
                assert(step_spec(pre_buf, pre_last, pre_pending, rest[0]) == Err::<
                    (Seq<char>, int, bool),
                    RomanizeError,
                >(RomanizeError::MissingFeatures));
            }
            return Err(RomanizeError::MissingFeatures);
        }
        if t.is_punctuation() {
            pending = false;
        } else {
            let idx_opt = find_from(buf.as_str(), t.surface.as_str(), 0);
            let idx: usize = match idx_opt {
                None => {
                    proof {
                        assert(step_spec(pre_buf, pre_last, pre_pending, rest[0]) == Err::<
                            (Seq<char>, int, bool),
                            RomanizeError,
                        >(RomanizeError::SurfaceNotFound));
                    }
                    return Err(RomanizeError::SurfaceNotFound);
                },
                Some(i) => i,
            };
            match t.reading() {
                Some(rd) => {
                    proof {
                        assert(tokens_transliterable(toks));
                        assert(spec_reading(toks[k as int]) == Some(rd@));
                        assert(spec_reading(toks[k as int]) is Some);
                        assert(kana_transliterable(spec_reading(toks[k as int])->Some_0));
                    }
                    let repl = build_replacement(t, rd.as_str(), pending);
                    proof {
                        lemma_find_spec_some(buf@, t@.surface, 0, idx as int);
                    }
                    let slen = t.surface.unicode_len();
                    buf = splice(buf.as_str(), idx, slen, repl.as_str());
                    pending = true;
                    last = idx;
                },
                None => {
                    let sn = t.surface.unicode_len();
                    let mut first_alnum = false;
                    if sn > 0 {
                        first_alnum = is_alphanumeric(t.surface.get_char(0));
                    }
                    if pending && first_alnum {
                        match find_from(buf.as_str(), t.surface.as_str(), last) {
                            None => {
                                proof {
                                    assert(opaque_needs_space(pre_pending, rest[0].surface));
                                    assert(step_spec(pre_buf, pre_last, pre_pending, rest[0])
                                        == Err::<(Seq<char>, int, bool), RomanizeError>(
                                        RomanizeError::SurfaceNotFound,
                                    ));
                                }
                                return Err(RomanizeError::SurfaceNotFound);
                            },
                            Some(j) => {
                                proof {
                                    lemma_find_spec_some(buf@, t@.surface, last as int, j as int);
                                }
                                buf = splice(buf.as_str(), j, 0, " ");
                            },
                        }
                    }
                    pending = false;
                    last = idx;
                },
            }
        }
        proof {
            assert(step_spec(pre_buf, pre_last, pre_pending, rest[0]) == Ok::<
                (Seq<char>, int, bool),
                RomanizeError,
            >((buf@, last as int, pending)));
            assert(run_spec(pre_buf, rest, pre_last, pre_pending) == run_spec(
                buf@,
                toks.skip(k as int + 1),
                last as int,
                pending,
            ));
        }
        k = k + 1;
    }
    proof {
        assert(toks.skip(n as int) =~= Seq::<SpecToken>::empty());
        assert(run_spec(buf@, toks.skip(n as int), last as int, pending) == Ok::<
            Seq<char>,
            RomanizeError,
        >(buf@));
    }
    let out = nfkc_normalize(buf.as_str());
    Ok(out)
}

} // verus!
