//! Small wording helpers.
use vstd::prelude::*;

verus! {

/// A character whose lowercase form is exactly one of `a`, `e`, `i`, `o`,
/// `u`: these are the ten ASCII vowels, no other character lowercases to a
/// single ASCII vowel.
pub open spec fn is_vowel(c: char) -> bool {
    c == 'a' || c == 'e' || c == 'i' || c == 'o' || c == 'u' || c == 'A' || c == 'E' || c == 'I'
        || c == 'O' || c == 'U'
}

/// The indefinite article for a word: `"An"` when its first character is a
/// vowel, `"A"` otherwise (also for the empty word).
pub fn vowel_gen(sentense: &str) -> (r: &'static str)
    ensures
        r@ == (if sentense@.len() > 0 && is_vowel(sentense@[0]) {
            seq!['A', 'n']
        } else {
            seq!['A']
        }),
{
    proof {
        reveal_strlit("An");
        reveal_strlit("A");
    }
    if sentense.is_empty() {
        return "A";
    }
    let c = sentense.get_char(0);
    if c == 'a' || c == 'e' || c == 'i' || c == 'o' || c == 'u' || c == 'A' || c == 'E' || c
        == 'I' || c == 'O' || c == 'U' {
        assert("An"@ =~= seq!['A', 'n']);
        "An"
    } else {
        assert("A"@ =~= seq!['A']);
        "A"
    }
}

} // verus!
