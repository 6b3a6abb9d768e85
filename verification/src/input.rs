//! Normalisation and validation of player input.
//!
//! One raw line of input is lower-cased, trimmed, and folded to ASCII
//! under the chosen language tag; the result is accepted as an attempt
//! exactly when its character count equals the solution word's length.
//! A rejected line costs nothing: the caller asks for another.

use vstd::prelude::*;

verus! {

/// What `str::to_lowercase` returns for a given character sequence.
pub uninterp spec fn lower_of(s: Seq<char>) -> Seq<char>;

/// What `str::trim` returns for a given character sequence.
pub uninterp spec fn trimmed(s: Seq<char>) -> Seq<char>;

/// What the locale folding returns for a given word and language tag.
pub uninterp spec fn folded(word: Seq<char>, lang: Seq<char>) -> Seq<char>;

/// Relies on str::to_lowercase: the lower-case form of the string, a
/// function of its characters alone.
#[verifier::external_body]
fn lowercase(s: &str) -> (r: String)
    ensures
        r@ == lower_of(s@),
{
    s.to_lowercase()
}

/// Relies on str::trim: the string with leading and trailing whitespace
/// removed, a function of its characters alone.
#[verifier::external_body]
fn trim_input(s: &str) -> (r: &str)
    ensures
        r@ == trimmed(s@),
{
    s.trim()
}

/// Relies on wordle_cli::lang::locale::replace_unicode: the word folded
/// to ASCII under the language tag (for "de", umlauts become their
/// two-letter counterparts first), a function of its arguments alone.
#[verifier::external_body]
fn fold_locale(word: &str, lang: &str) -> (r: String)
    ensures
        r@ == folded(word@, lang@),
{
    wordle_cli::lang::locale::replace_unicode(word, lang)
}

/// The normal form of one raw line of player input: lower-cased, trimmed,
/// then folded to ASCII under the language tag.
pub open spec fn normalized(raw: Seq<char>, lang: Seq<char>) -> Seq<char> {
    folded(trimmed(lower_of(raw)), lang)
}

/// An attempt is accepted only when its character count equals the
/// expected word length.
pub fn validate_user_input(user_input: &str, expected_len: usize) -> (r: bool)
    ensures
        r == (user_input@.len() == expected_len),
{
    user_input.unicode_len() == expected_len
}

/// Bring one raw line of player input into its normal form.
pub fn normalize_guess(raw: &str, lang: &str) -> (r: String)
    ensures
        r@ == normalized(raw@, lang@),
{
    let lowered = lowercase(raw);
    let polished = trim_input(lowered.as_str());
    fold_locale(polished, lang)
}

/// Normalise one raw line of player input and accept it as an attempt
/// exactly when the normal form has the expected character count. A
/// rejected line returns nothing, so the caller can ask again without
/// consequence; an accepted one is handed back lower-cased.
pub fn accept_guess(raw: &str, lang: &str, expected_len: usize) -> (r: Option<String>)
    ensures
        r is Some <==> normalized(raw@, lang@).len() == expected_len,
        r matches Some(g) ==> g@ == lower_of(normalized(raw@, lang@)),
{
    let polished = normalize_guess(raw, lang);
    if validate_user_input(polished.as_str(), expected_len) {
        Some(lowercase(polished.as_str()))
    } else {
        None
    }
}

} // verus!
