//! Comparing and trimming texts, and the characters that they hold.

use vstd::prelude::*;

verus! {

/// The characters of an owned text that may be missing.
pub open spec fn string_view(text: Option<String>) -> Option<Seq<char>> {
    match text {
        Some(t) => Some(t@),
        None => None,
    }
}

/// The characters of a borrowed text that may be missing.
pub open spec fn str_view(text: Option<&str>) -> Option<Seq<char>> {
    match text {
        Some(t) => Some(t@),
        None => None,
    }
}

/// `<str as PartialEq>::eq` of std: two string slices are equal exactly when
/// they hold the same characters in the same order.
pub assume_specification[ <str as PartialEq>::eq ](a: &str, b: &str) -> (same: bool)
    ensures
        same == (a@ == b@),
;

/// `str::trim` of std: the slice that is left once every leading and every
/// trailing character with the Unicode property `White_Space` is taken off.
pub assume_specification[ str::trim ](s: &str) -> (rest: &str)
    ensures
        rest@ == trimmed(s@),
;

/// A character with the Unicode property `White_Space`.
pub open spec fn is_white_space(c: char) -> bool {
    ||| '\u{9}' <= c <= '\u{d}'
    ||| c == '\u{20}'
    ||| c == '\u{85}'
    ||| c == '\u{a0}'
    ||| c == '\u{1680}'
    ||| '\u{2000}' <= c <= '\u{200a}'
    ||| c == '\u{2028}'
    ||| c == '\u{2029}'
    ||| c == '\u{202f}'
    ||| c == '\u{205f}'
    ||| c == '\u{3000}'
}

/// The text without the white space around it.
pub open spec fn trimmed(text: Seq<char>) -> Seq<char>
    decreases text.len(),
{
    if text.len() > 0 && is_white_space(text.first()) {
        trimmed(text.drop_first())
    } else if text.len() > 0 && is_white_space(text.last()) {
        trimmed(text.drop_last())
    } else {
        text
    }
}

/// White space around a text does not change what is left of it.
pub proof fn trimming_ignores_outer_white_space(
    before: Seq<char>,
    text: Seq<char>,
    after: Seq<char>,
)
    requires
        forall|i: int| 0 <= i < before.len() ==> is_white_space(#[trigger] before[i]),
        forall|i: int| 0 <= i < after.len() ==> is_white_space(#[trigger] after[i]),
    ensures
        trimmed(before + text + after) == trimmed(text),
    decreases before.len() + text.len() + after.len(),
{
    let whole = before + text + after;
    if before.len() > 0 {
        assert(whole.first() == before[0]);
        assert(whole.drop_first() =~= before.drop_first() + text + after);
        trimming_ignores_outer_white_space(before.drop_first(), text, after);
    } else if after.len() == 0 {
        assert(whole =~= text);
    } else if text.len() == 0 {
        assert(whole.first() == after[0]);
        assert(whole.drop_first() =~= before + text + after.drop_first());
        trimming_ignores_outer_white_space(before, text, after.drop_first());
    } else if is_white_space(text.first()) {
        assert(whole.first() == text.first());
        assert(whole.drop_first() =~= before + text.drop_first() + after);
        trimming_ignores_outer_white_space(before, text.drop_first(), after);
    } else {
        assert(whole.first() == text.first());
        assert(whole.last() == after.last());
        assert(whole.drop_last() =~= before + text + after.drop_last());
        trimming_ignores_outer_white_space(before, text, after.drop_last());
    }
}

} // verus!
