//! Small operations on strings that the rest of the library shares.

use vstd::prelude::*;
use vstd::string::*;
use crate::model::{opt_text, text_or_empty};

verus! {

/// The characters of each string, in the same order.
pub open spec fn texts(strings: Seq<String>) -> Seq<Seq<char>> {
    strings.map_values(|s: String| s@)
}

/// The upper-case form of a text, as `str::to_uppercase` of the standard
/// library gives it.
pub uninterp spec fn upper_cased(text: Seq<char>) -> Seq<char>;

/// Calls `str::to_uppercase`, which maps each character by the Unicode
/// upper-case mapping and so may change the number of characters. What it
/// returns depends on the text alone; that is all the contract says.
#[verifier::external_body]
pub(crate) fn to_upper(text: &str) -> (upper: String)
    ensures
        upper@ == upper_cased(text@),
{
    text.to_uppercase()
}

/// `String::push` appends the character to the end of the string.
pub assume_specification[ String::push ](text: &mut String, c: char)
    ensures
        final(text)@ == old(text)@.push(c),
;

/// A copy of the text, or the empty string where there is none.
pub(crate) fn or_empty(text: &Option<String>) -> (copy: String)
    ensures
        copy@ == text_or_empty(opt_text(*text)),
{
    match text {
        Some(s) => s.clone(),
        None => String::new(),
    }
}

/// Whether the text is present and reads `word`.
pub(crate) fn reads(text: &Option<String>, word: &str) -> (yes: bool)
    ensures
        yes == (opt_text(*text) == Some(word@)),
{
    match text {
        Some(s) => {
            let w = String::from_str(word);
            *s == w
        },
        None => false,
    }
}

} // verus!
