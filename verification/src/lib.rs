//! Romanization of mixed-script Japanese text.
//!
//! The core is an alignment and reconstruction algorithm: given a text and the
//! ordered tokens that an external morphological tagger produced for it, it
//! rewrites the text token by token into a Latin-alphabet rendering, keeping
//! punctuation and word spacing, capitalizing nouns, and encoding vowel length
//! with a combining macron instead of the transliterator's plain hyphen.
//!
//! The tagger, the kana transliterator and the final Unicode normalization are
//! external collaborators; the library states their behaviour at its interface
//! and verifies everything it does with their results.

mod align;
mod normalize;
mod romaji;
mod search;
mod token;

pub use align::RomanizeError;
pub use align::build_replacement;
pub use align::lemma_punctuation_preservation;
pub use align::lemma_single_substitution;
pub use align::opaque_needs_space;
pub use align::reconstruct;
pub use align::reconstruct_spec;
pub use align::replacement_spec;
pub use align::run_spec;
pub use align::step_spec;
pub use align::tokens_transliterable;
pub use align::views_of;
pub use normalize::nfkc_normalize;
pub use normalize::nfkc_of;
pub use romaji::alnum_char;
pub use romaji::ascii_capital;
pub use romaji::ascii_capital_of;
pub use romaji::ascii_lower;
pub use romaji::capitalize_spec;
pub use romaji::encode_macrons;
pub use romaji::kana_transliterable;
pub use romaji::katakana_char;
pub use romaji::katakana_seq;
pub use romaji::lemma_macron_substitution;
pub use romaji::macron_spec;
pub use romaji::romaji_of;
pub use romaji::small_tsu;
pub use romaji::transliterable;
pub use romaji::upper_of;
pub use romaji::uppercase_first_character;
pub use romaji::wa_row_voiced;
pub use search::find_from;
pub use search::find_spec;
pub use search::lemma_find_spec_some;
pub use search::splice;
pub use search::splice_spec;
pub use token::SpecToken;
pub use token::Token;
pub use token::noun_category;
pub use token::spec_is_noun;
pub use token::spec_is_punctuation;
pub use token::spec_reading;
pub use token::symbol_category;
