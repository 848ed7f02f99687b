//! Interface language selection.
//!
//! Every user-facing text exists in French and in English; the language in
//! use is handed to the functions that build text.

use vstd::prelude::*;

verus! {

/// Language of the interface.
#[derive(Debug, Clone, Copy, PartialEq, Eq, Structural)]
pub enum Language {
    Fr,
    En,
}

/// Picks the French or the English variant of a text.
pub open spec fn pick<T>(lang: Language, fr: T, en: T) -> T {
    match lang {
        Language::Fr => fr,
        Language::En => en,
    }
}

/// Returns the variant of a text that matches `lang`.
pub fn text<'a>(lang: Language, fr: &'a str, en: &'a str) -> (res: &'a str)
    ensures
        res@ == pick(lang, fr@, en@),
{
    match lang {
        Language::Fr => fr,
        Language::En => en,
    }
}

} // verus!
