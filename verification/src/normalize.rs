//! The final Unicode normalization pass.
//!
//! The finished buffer is put through Unicode canonical-compatibility
//! normalization once; this composes each combining macron with its vowel and
//! folds full-width punctuation to its canonical form.  The algorithm itself
//! is the standard one, consumed here at its interface.

use unicode_normalization::UnicodeNormalization;
use vstd::prelude::*;

verus! {

/// What Unicode canonical-compatibility normalization (NFKC) returns for a
/// string.
pub uninterp spec fn nfkc_of(s: Seq<char>) -> Seq<char>;

/// Relies on unicode-normalization's `nfkc` iterator adaptor: compatibility
/// decomposition followed by canonical composition, per the Unicode standard's
/// normalization algorithm.  That standard states that normalization is
/// idempotent: a normalized string normalizes to itself.
#[verifier::external_body]
fn nfkc_exec(s: &str) -> (r: String)
    ensures
        r@ == nfkc_of(s@),
        nfkc_of(r@) == r@,
{
    s.nfkc().collect()
}

/// Final Normalizer: apply Unicode canonical-compatibility normalization.
/// Applying it to its own result returns that result unchanged, so a second
/// pass produces the same string as the first.
pub fn nfkc_normalize(s: &str) -> (r: String)
    ensures
        r@ == nfkc_of(s@),
        nfkc_of(r@) == r@,
{
    nfkc_exec(s)
}

} // verus!
