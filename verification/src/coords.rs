//! Classification of coordinate input shapes.
//!
//! A stateless utility of the surrounding application's map tooling: it
//! guesses which coordinate notation a free-form input uses, by shape
//! alone. It shares the character-level helpers of [`crate::text`] and has
//! no connection to the session state.

use vstd::prelude::*;
use crate::text::{
    alphabetic_char, char_is_alphabetic, char_is_numeric, collect_chars, count_char,
    count_matches, count_tokens, numeric_char, token_count, trim_chars, trimmed, utf8_len,
    utf8_len_at_least,
};

verus! {

/// The characters a what3words address is made of: letters and the two
/// dots between the words.
pub open spec fn w3w_char(c: char) -> bool {
    alphabetic_char(c) || c == '.'
}

/// Whether every character of `s` could belong to a what3words address.
pub open spec fn all_w3w_chars(s: Seq<char>) -> bool {
    forall|i: int| 0 <= i < s.len() ==> w3w_char(#[trigger] s[i])
}

/// The notation the detector reports for an input with characters `s`,
/// after trimming whitespace: `what3words` for two dots among letters,
/// else `mgrs` for at least five bytes starting with two numeric
/// characters, else `utm` for exactly three whitespace-separated tokens,
/// else `latlong`.
pub open spec fn spec_detect_format(s: Seq<char>) -> Seq<char> {
    let t = trimmed(s);
    if count_matches(t, '.') == 2 && all_w3w_chars(t) {
        "what3words"@
    } else if utf8_len(t) >= 5 && t.len() >= 2 && numeric_char(t[0]) && numeric_char(t[1]) {
        "mgrs"@
    } else if token_count(t) == 3 {
        "utm"@
    } else {
        "latlong"@
    }
}

/// Whether every character of `t` could belong to a what3words address.
fn all_w3w(t: &Vec<char>) -> (r: bool)
    ensures
        r == all_w3w_chars(t@),
{
    let mut i: usize = 0;
    while i < t.len()
        invariant
            0 <= i <= t.len(),
            forall|j: int| 0 <= j < i ==> w3w_char(#[trigger] t@[j]),
        decreases t.len() - i,
    {
        let c = t[i];
        if !(char_is_alphabetic(c) || c == '.') {
            return false;
        }
        i = i + 1;
    }
    true
}

/// Names the coordinate notation `input` appears to use: `what3words`,
/// `mgrs`, `utm` or `latlong`; see [`spec_detect_format`].
pub fn detect_coordinate_format(input: &str) -> (r: String)
    ensures
        r@ == spec_detect_format(input@),
{
    let cs = collect_chars(input);
    let t = trim_chars(&cs);
    if count_char(&t, '.') == 2 && all_w3w(&t) {
        return "what3words".to_owned();
    }
    if utf8_len_at_least(&t, 5) && t.len() >= 2 && char_is_numeric(t[0]) && char_is_numeric(t[1]) {
        return "mgrs".to_owned();
    }
    if count_tokens(&t) == 3 {
        return "utm".to_owned();
    }
    "latlong".to_owned()
}

} // verus!
