//! Phonetic transliteration and the per-token text transformations.
//!
//! The kana-to-Latin mapping itself is the external transliterator's; this
//! module names its result and verifies everything that is done with it:
//! capitalizing the first letter of a noun and rewriting the transliterator's
//! hyphen length marker as a combining macron.

use vstd::prelude::*;
use vstd::string::*;

verus! {

/// What the external transliterator returns for a kana string: its Latin
/// phonetic rendering, with an ASCII hyphen marking vowel length.  The result
/// depends on the input alone; its mapping table is outside this library.
pub uninterp spec fn romaji_of(kana: Seq<char>) -> Seq<char>;

/// The small tsu, in either kana script (U+3063, U+30C3).
pub open spec fn small_tsu(c: char) -> bool {
    c as u32 == 0x3063 || c as u32 == 0x30C3
}

/// The four katakana letters with a voicing mark and no hiragana
/// counterpart, U+30F7 ..= U+30FA.
pub open spec fn wa_row_voiced(c: char) -> bool {
    0x30F7 <= c as u32 && c as u32 <= 0x30FA
}

/// Strings on which the transliterator is known to return normally.  It
/// panics on exactly two families of input, both excluded here: a katakana
/// letter U+30F7 ..= U+30FA (its code shift to hiragana has no entry in the
/// mapping table, which is then indexed anyway when a long dash follows), and
/// a trailing small tsu after an earlier small tsu (the earlier one arms
/// consonant doubling, which then asks for the first character of the
/// trailing one's empty mapping).  The exclusion is a little wider than the
/// panics: every string of the ordinary kana scripts satisfies it.
pub open spec fn kana_transliterable(s: Seq<char>) -> bool {
    &&& forall|i: int| 0 <= i < s.len() ==> !wa_row_voiced(s[i])
    &&& !(s.len() >= 2 && small_tsu(s[s.len() - 1]) && exists|i: int|
        0 <= i < s.len() - 1 && small_tsu(s[i]))
}

/// Decide `kana_transliterable`, so that a caller can test a reading before
/// handing it to the transliterator.
pub fn transliterable(s: &str) -> (r: bool)
    ensures
        r == kana_transliterable(s@),
{
    let n = s.unicode_len();
    let mut i: usize = 0;
    while i < n
        invariant
            n == s@.len(),
            i <= n,
            forall|j: int| 0 <= j < i ==> !wa_row_voiced(s@[j]),
        decreases n - i,
    {
        let c = s.get_char(i);
        if 0x30F7 <= c as u32 && c as u32 <= 0x30FA {
            return false;
        }
        i = i + 1;
    }
    if n >= 2 {
        let lastc = s.get_char(n - 1);
        if lastc as u32 == 0x3063 || lastc as u32 == 0x30C3 {
            let mut j: usize = 0;
            while j < n - 1
                invariant
                    n == s@.len(),
                    2 <= n,
                    j <= n - 1,
                    small_tsu(s@[n - 1]),
                    forall|m: int| 0 <= m < j ==> !small_tsu(s@[m]),
                decreases n - j,
            {
                let c = s.get_char(j);
                if c as u32 == 0x3063 || c as u32 == 0x30C3 {
                    return false;
                }
                j = j + 1;
            }
        }
    }
    true
}

/// Relies on wana_kana's `to_romaji::to_romaji`: a deterministic function
/// from a kana string to its Latin phonetic rendering.  This version is not
/// total — see `kana_transliterable` for the two input families on which it
/// panics; the precondition excludes them.
#[verifier::external_body]
pub(crate) fn to_romaji(kana: &str) -> (r: String)
    requires
        kana_transliterable(kana@),
    ensures
        r@ == romaji_of(kana@),
{
    wana_kana::to_romaji::to_romaji(kana)
}

/// One character of the katakana block, as the transliterator's own
/// `is_char_katakana` delimits it: U+30A1 through U+30FC.
pub open spec fn katakana_char(c: char) -> bool {
    0x30A1 <= c as u32 && c as u32 <= 0x30FC
}

/// A non-empty string wholly composed of katakana characters.
pub open spec fn katakana_seq(s: Seq<char>) -> bool {
    s.len() > 0 && forall|i: int| 0 <= i < s.len() ==> katakana_char(s[i])
}

/// Whether the string is non-empty and wholly katakana.  This is the
/// transliterator's own criterion for a katakana string (non-empty, every
/// character in the block above), written out and verified here rather than
/// called.
pub(crate) fn is_katakana(s: &str) -> (r: bool)
    ensures
        r == katakana_seq(s@),
{
    let n = s.unicode_len();
    if n == 0 {
        return false;
    }
    let mut i: usize = 0;
    while i < n
        invariant
            n == s@.len(),
            i <= n,
            forall|j: int| 0 <= j < i ==> katakana_char(s@[j]),
        decreases n - i,
    {
        let c = s.get_char(i);
        if !(0x30A1 <= c as u32 && c as u32 <= 0x30FC) {
            return false;
        }
        i = i + 1;
    }
    true
}

/// What `char::to_uppercase` yields for one character, collected into a
/// character sequence.
pub uninterp spec fn upper_of(c: char) -> Seq<char>;

/// An ASCII lowercase letter.
pub open spec fn ascii_lower(c: char) -> bool {
    0x61 <= c as u32 && c as u32 <= 0x7A
}

/// `upper` is the ASCII capital of the ASCII lowercase letter `lower`: the
/// same letter, thirty-two code points earlier.
pub open spec fn ascii_capital_of(lower: char, upper: char) -> bool {
    upper as u32 == lower as u32 - 0x20
}

/// An ASCII capital letter.
pub open spec fn ascii_capital(c: char) -> bool {
    0x41 <= c as u32 && c as u32 <= 0x5A
}

/// Relies on `char::to_uppercase`: the Unicode uppercase mapping of the
/// character, one or more characters, or the character itself when it has no
/// mapping; for an ASCII lowercase letter it is the single ASCII capital, and
/// an ASCII capital, having no conversion, is yielded unchanged.
#[verifier::external_body]
fn char_to_uppercase(c: char) -> (r: String)
    ensures
        r@ == upper_of(c),
        r@.len() >= 1,
        ascii_lower(c) ==> r@.len() == 1 && ascii_capital_of(c, r@[0]),
        ascii_capital(c) ==> r@ == seq![c],
{
    c.to_uppercase().collect()
}

/// What `char::is_alphanumeric` returns: whether the character is Unicode
/// alphabetic or a digit, a property of the character alone.
pub uninterp spec fn alnum_char(c: char) -> bool;

/// Relies on `char::is_alphanumeric`.
#[verifier::external_body]
pub(crate) fn is_alphanumeric(c: char) -> (r: bool)
    ensures
        r == alnum_char(c),
{
    c.is_alphanumeric()
}

/// Relies on `String::push`: appends one character.
#[verifier::external_body]
fn push_char(s: &mut String, c: char)
    ensures
        final(s)@ == old(s)@.push(c),
{
    s.push(c);
}

/// The string with its first character replaced by that character's Unicode
/// uppercase mapping; the empty string stays empty.
pub open spec fn capitalize_spec(s: Seq<char>) -> Seq<char> {
    if s.len() == 0 {
        s
    } else {
        upper_of(s[0]) + s.skip(1)
    }
}

/// Uppercase the first character of a string.  When that character is an
/// ASCII lowercase letter — as the transliterator's output begins with for
/// kana input — the result begins with the corresponding ASCII capital; a
/// string already beginning with an ASCII capital comes back unchanged, so on
/// ASCII-letter-initial strings a second application returns the first's
/// result.
pub fn uppercase_first_character(s: &str) -> (r: String)
    ensures
        r@ == capitalize_spec(s@),
        s@.len() > 0 && ascii_lower(s@[0]) ==> r@.len() == s@.len() && ascii_capital_of(
            s@[0],
            r@[0],
        ) && r@.skip(1) == s@.skip(1),
        s@.len() > 0 && ascii_capital(s@[0]) ==> r@ == s@,
{
    let n = s.unicode_len();
    if n == 0 {
        let r = String::new();
        proof {
            assert(r@ =~= s@);
        }
        return r;
    }
    let mut out = char_to_uppercase(s.get_char(0));
    out.append(s.substring_char(1, n));
    proof {
        assert(s@.subrange(1, n as int) =~= s@.skip(1));
        if ascii_lower(s@[0]) {
            assert(out@.skip(1) =~= s@.skip(1));
        }
        if ascii_capital(s@[0]) {
            assert(out@ =~= s@);
        }
    }
    out
}

/// The string with every hyphen length marker replaced by the combining
/// macron U+0304, which Unicode composition places on the preceding vowel.
pub open spec fn macron_spec(s: Seq<char>) -> Seq<char> {
    s.map_values(|c: char| if c == '-' { '\u{0304}' } else { c })
}

/// Macron Encoder: rewrite the transliterator's hyphen length-marker
/// convention into the combining-macron form.  Deterministic and total.
pub fn encode_macrons(s: &str) -> (r: String)
    ensures
        r@ == macron_spec(s@),
{
    let n = s.unicode_len();
    let mut out = String::new();
    let mut i: usize = 0;
    while i < n
        invariant
            n == s@.len(),
            i <= n,
            out@.len() == i,
            forall|j: int| 0 <= j < i ==> out@[j] == (if s@[j] == '-' {
                '\u{0304}'
            } else {
                s@[j]
            }),
        decreases n - i,
    {
        let c = s.get_char(i);
        if c == '-' {
            push_char(&mut out, '\u{0304}');
        } else {
            push_char(&mut out, c);
        }
        i = i + 1;
    }
    proof {
        assert(out@ =~= macron_spec(s@));
    }
    out
}

/// Every hyphen the transliterator emitted is gone after macron encoding:
/// the encoder keeps the length, turns exactly the hyphens into the combining
/// macron on the preceding vowel, leaves every other character unchanged, and
/// leaves no hyphen in its result.
pub proof fn lemma_macron_substitution(s: Seq<char>)
    ensures
        macron_spec(s).len() == s.len(),
        forall|i: int| 0 <= i < s.len() && s[i] == '-' ==> macron_spec(s)[i] == '\u{0304}',
        forall|i: int| 0 <= i < s.len() && s[i] != '-' ==> macron_spec(s)[i] == s[i],
        forall|i: int| 0 <= i < macron_spec(s).len() ==> macron_spec(s)[i] != '-',
{
    assert forall|i: int| 0 <= i < macron_spec(s).len() implies macron_spec(s)[i] != '-' by {
        assert(macron_spec(s)[i] == (if s[i] == '-' {
            '\u{0304}'
        } else {
            s[i]
        }));
    }
}

} // verus!
