//! Local language classification and the translation direction rules.
//!
//! The real language detector is a network call; when it fails, this local
//! heuristic takes over: a text holding any character special to German is
//! classified as German, everything else as English.

use vstd::prelude::*;

verus! {

use crate::strutil::contains_char;

/// Whether the character is special to German text.
pub open spec fn spec_is_german_char(c: char) -> bool {
    c == '\u{00e4}'  // a-umlaut
     || c == '\u{00f6}'  // o-umlaut
     || c == '\u{00fc}'  // u-umlaut
     || c == '\u{00df}'  // sharp s
     || c == '\u{00c4}'  // A-umlaut
     || c == '\u{00d6}'  // O-umlaut
     || c == '\u{00dc}'  // U-umlaut

}

/// The language code the fallback assigns: German when a German-only
/// character occurs, English otherwise.
pub open spec fn spec_fallback_lang(t: Seq<char>) -> Seq<char> {
    if exists|i: int| 0 <= i < t.len() && spec_is_german_char(t[i]) {
        "de"@
    } else {
        "en"@
    }
}

/// Classifies a text by scanning for characters special to German; the
/// deterministic local fallback of the language detector.
pub fn detect_language_fallback(text: &str) -> (r: String)
    ensures
        r@ == spec_fallback_lang(text@),
{
    let found = contains_char(text, '\u{00e4}') || contains_char(text, '\u{00f6}')
        || contains_char(text, '\u{00fc}') || contains_char(text, '\u{00df}') || contains_char(
        text,
        '\u{00c4}',
    ) || contains_char(text, '\u{00d6}') || contains_char(text, '\u{00dc}');
    if found {
        "de".to_owned()
    } else {
        "en".to_owned()
    }
}

/// The translation target for a detected source language: German text goes
/// to English, everything else to German.
pub fn target_lang_of(source: &str) -> (r: String)
    ensures
        source@ == "de"@ ==> r@ == "en"@,
        source@ != "de"@ ==> r@ == "de"@,
{
    if crate::strutil::str_eq(source, "de") {
        "en".to_owned()
    } else {
        "de".to_owned()
    }
}

/// The display name a prompt uses for a language code.
pub fn lang_display_name(code: &str) -> (r: String)
    ensures
        code@ == "de"@ ==> r@ == "German"@,
        code@ != "de"@ ==> r@ == "English"@,
{
    if crate::strutil::str_eq(code, "de") {
        "German".to_owned()
    } else {
        "English".to_owned()
    }
}

} // verus!
