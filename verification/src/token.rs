//! Tokens and their classification.
//!
//! A token is one morpheme as the external tagger reports it: the surface
//! text exactly as it appears in the input, and an ordered list of feature
//! strings.  Feature positions are fixed: index 0 is the part-of-speech
//! category, index 8 — when present — the phonetic pronunciation.  The
//! classifier decides from these whether a token is punctuation, a
//! phonetically readable unit, or opaque.

use vstd::prelude::*;
use vstd::string::*;

use crate::romaji::is_katakana;
use crate::romaji::katakana_seq;

verus! {

/// One token of the tagger's output.
pub struct Token {
    /// The token's text, exactly as it occurs in the input.
    pub surface: String,
    /// The tagger's feature strings, in its fixed order.
    pub features: Vec<String>,
}

/// The mathematical model of a token: both fields as character sequences.
pub ghost struct SpecToken {
    pub surface: Seq<char>,
    pub features: Seq<Seq<char>>,
}

impl View for Token {
    type V = SpecToken;

    open spec fn view(&self) -> SpecToken {
        SpecToken {
            surface: self.surface@,
            features: self.features@.map_values(|f: String| f@),
        }
    }
}

/// The tagger's part-of-speech category for symbols and punctuation.
pub open spec fn symbol_category() -> Seq<char> {
    "記号"@
}

/// The tagger's part-of-speech category for nouns.
pub open spec fn noun_category() -> Seq<char> {
    "名詞"@
}

/// A token whose part-of-speech feature is the symbol/punctuation category.
pub open spec fn spec_is_punctuation(t: SpecToken) -> bool {
    t.features[0] == symbol_category()
}

/// A token whose part-of-speech feature is the noun category.
pub open spec fn spec_is_noun(t: SpecToken) -> bool {
    t.features[0] == noun_category()
}

/// The kana reading the transliterator is given for a token: the
/// pronunciation feature when the token has one, else the surface text itself
/// when that is wholly katakana.  A token with neither is not phonetic.
pub open spec fn spec_reading(t: SpecToken) -> Option<Seq<char>> {
    if t.features.len() > 8 {
        Some(t.features[8])
    } else if katakana_seq(t.surface) {
        Some(t.surface)
    } else {
        None
    }
}

impl Token {
    /// Whether this token is grammatical punctuation.
    pub fn is_punctuation(&self) -> (r: bool)
        requires
            self@.features.len() > 0,
        ensures
            r == spec_is_punctuation(self@),
    {
        proof {
            assert(self@.features[0] == self.features@[0]@);
        }
        let cat = String::from_str("記号");
        self.features[0] == cat
    }

    /// Whether this token is tagged as a noun.
    pub fn is_noun(&self) -> (r: bool)
        requires
            self@.features.len() > 0,
        ensures
            r == spec_is_noun(self@),
    {
        proof {
            assert(self@.features[0] == self.features@[0]@);
        }
        let cat = String::from_str("名詞");
        self.features[0] == cat
    }

    /// The kana reading to transliterate, if the token has one.
    pub fn reading(&self) -> (r: Option<String>)
        ensures
            match r {
                Some(s) => spec_reading(self@) == Some(s@),
                None => spec_reading(self@) is None,
            },
    {
        if self.features.len() > 8 {
            proof {
                assert(self@.features[8] == self.features@[8]@);
            }
            Some(self.features[8].clone())
        } else if is_katakana(self.surface.as_str()) {
            Some(self.surface.clone())
        } else {
            None
        }
    }
}

} // verus!
