//! Classification of a text field.

use vstd::prelude::*;

verus! {

/// Whether `c` is whitespace: one of the 25 characters with the Unicode
/// property `White_Space`, among them the space, the tab and the line breaks.
pub open spec fn is_whitespace(c: char) -> bool {
    ||| '\u{9}' <= c <= '\u{D}'
    ||| c == ' '
    ||| c == '\u{85}'
    ||| c == '\u{A0}'
    ||| c == '\u{1680}'
    ||| '\u{2000}' <= c <= '\u{200A}'
    ||| c == '\u{2028}'
    ||| c == '\u{2029}'
    ||| c == '\u{202F}'
    ||| c == '\u{205F}'
    ||| c == '\u{3000}'
}

/// Whether some character of `s` is whitespace.
pub open spec fn has_whitespace(s: Seq<char>) -> bool {
    exists|i: int| 0 <= i < s.len() && is_whitespace(#[trigger] s[i])
}

/// Decides whether `c` is a whitespace character.
pub fn char_is_whitespace(c: char) -> (b: bool)
    ensures
        b == is_whitespace(c),
{
    ('\u{9}' <= c && c <= '\u{D}')
        || c == ' '
        || c == '\u{85}'
        || c == '\u{A0}'
        || c == '\u{1680}'
        || ('\u{2000}' <= c && c <= '\u{200A}')
        || c == '\u{2028}'
        || c == '\u{2029}'
        || c == '\u{202F}'
        || c == '\u{205F}'
        || c == '\u{3000}'
}

/// Decides whether `s` holds a whitespace character.
pub fn contains_whitespace(s: &str) -> (b: bool)
    ensures
        b == has_whitespace(s@),
{
    for c in it: s.chars()
        invariant
            it.seq() == s@,
            forall|i: int| 0 <= i < it.index() ==> !is_whitespace(#[trigger] s@[i]),
    {
        if char_is_whitespace(c) {
            return true;
        }
    }
    false
}

/// What a text field holds, as far as validation cares.
#[derive(Clone, Copy, Debug, PartialEq, Eq, Structural)]
pub enum StringState {
    /// The text is not empty and holds no whitespace.
    Valid,
    /// The text is not empty and holds whitespace.
    HasWs,
    /// The text is empty.
    Empty,
}

impl StringState {
    /// The state of the text `s`. Emptiness is looked at first.
    pub open spec fn of(s: Seq<char>) -> StringState {
        if s.len() == 0 {
            StringState::Empty
        } else if has_whitespace(s) {
            StringState::HasWs
        } else {
            StringState::Valid
        }
    }

    /// Classifies `string`.
    pub fn get(string: &str) -> (state: Self)
        ensures
            state == StringState::of(string@),
            state is Empty <==> string@.len() == 0,
            state is HasWs <==> string@.len() > 0 && has_whitespace(string@),
            state is Valid <==> string@.len() > 0 && !has_whitespace(string@),
    {
        if string.is_empty() {
            StringState::Empty
        } else if contains_whitespace(string) {
            StringState::HasWs
        } else {
            StringState::Valid
        }
    }
}

} // verus!
