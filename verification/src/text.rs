//! Operations on text. What Unicode decides (case, classes of characters,
//! widths, patterns) is computed by the standard library and by the crates
//! this one depends on; each such result has a name here, and the contracts
//! of the items are stated over these names.

use vstd::prelude::*;
use vstd::std_specs::iter::IteratorSpec;
use inflector::cases::titlecase::to_title_case;
use pad::{Alignment, PadStr};
use regex::Regex;

verus! {

/// The lowercase form of a text, as `str::to_lowercase` computes it.
pub uninterp spec fn lowercase_of(text: Seq<char>) -> Seq<char>;

/// The title-case form of a text, as `inflector::cases::titlecase::to_title_case` computes it.
pub uninterp spec fn title_case_of(text: Seq<char>) -> Seq<char>;

/// Whether a character is alphabetic, as `char::is_alphabetic` decides it.
pub uninterp spec fn alphabetic(c: char) -> bool;

/// The number of columns a text takes when it is shown, as
/// `unicode_width::UnicodeWidthStr::width` counts them: it is what
/// `pad::PadStr::pad` measures a text by. A wide character takes two.
pub uninterp spec fn column_width(text: Seq<char>) -> nat;

/// A text that takes `columns` columns, padded on the right up to `width`
/// columns: the text as it is where it is wide enough, and otherwise the text
/// followed by `fill`, once for each column it is short of.
pub open spec fn padded_end(text: Seq<char>, columns: nat, width: nat, fill: char) -> Seq<char> {
    if columns >= width {
        text
    } else {
        text + Seq::new((width - columns) as nat, |i: int| fill)
    }
}

/// Whether a pattern is a regular expression: whether `regex::Regex::new`
/// compiles it.
pub uninterp spec fn regex_compiles(pattern: Seq<char>) -> bool;

/// Whether a text matches a pattern, as `regex::Regex::is_match` decides it
/// for the regular expression compiled from the pattern.
pub uninterp spec fn regex_matches(pattern: Seq<char>, text: Seq<char>) -> bool;

/// What trying a pattern on a text gives: whether the text matches, or
/// nothing where the pattern is no regular expression.
pub open spec fn regex_match(pattern: Seq<char>, text: Seq<char>) -> Option<bool> {
    if regex_compiles(pattern) {
        Some(regex_matches(pattern, text))
    } else {
        None
    }
}

/// Whether a text of this length can be padded to this width: the result must
/// stay within what a string can hold, with room for its buffer to grow.
pub open spec fn can_pad(len: nat, width: nat) -> bool {
    8 * (len + width) <= isize::MAX
}

/// Calls `str::to_lowercase` of the standard library. The result is a
/// function of the text alone; it is known only by its name.
#[verifier::external_body]
pub(crate) fn lowercase(text: &str) -> (out: String)
    ensures
        out@ == lowercase_of(text@),
{
    text.to_lowercase()
}

/// Calls `to_title_case` of the inflector crate. The result is a function of
/// the text alone; it is known only by its name.
#[verifier::external_body]
pub(crate) fn title_case(text: &str) -> (out: String)
    ensures
        out@ == title_case_of(text@),
{
    to_title_case(text)
}

/// Calls `char::is_alphabetic` of the standard library.
#[verifier::external_body]
pub(crate) fn is_alphabetic(c: char) -> (b: bool)
    ensures
        b == alphabetic(c),
{
    c.is_alphabetic()
}

/// Calls `PadStr::pad` of the pad crate, left-aligned and without cutting.
/// The crate measures the text in columns; where the text is as wide as
/// `width` or wider it hands back the text, and otherwise it appends `fill`
/// once for each column the text is short of `width`. How many columns a text
/// takes is Unicode's matter and is known by its name only. The crate builds
/// the result in a string that grows as it is filled, which `can_pad` leaves
/// room for.
#[verifier::external_body]
pub(crate) fn pad_end(text: &str, width: usize, fill: char) -> (out: String)
    requires
        can_pad(text@.len(), width as nat),
    ensures
        out@ == padded_end(text@, column_width(text@), width as nat, fill),
{
    text.pad(width, fill, Alignment::Left, false)
}

/// Compiles the pattern with `Regex::new` of the regex crate and, where that
/// succeeds, asks `Regex::is_match` whether the text matches. Whether the
/// pattern compiles depends on the pattern alone, whether the text matches on
/// the two of them.
#[verifier::external_body]
pub(crate) fn matches_pattern(pattern: &str, text: &str) -> (out: Option<bool>)
    ensures
        out == (if regex_compiles(pattern@) {
            Some(regex_matches(pattern@, text@))
        } else {
            None
        }),
{
    match Regex::new(pattern) {
        Ok(regex) => Some(regex.is_match(text)),
        Err(_) => None,
    }
}

/// Every character of the text is alphabetic.
pub open spec fn all_alphabetic(text: Seq<char>) -> bool {
    forall|i: int| 0 <= i < text.len() ==> alphabetic(#[trigger] text[i])
}

/// Whether every character of the text is alphabetic.
pub fn is_all_alphabetic(text: &str) -> (b: bool)
    ensures
        b == all_alphabetic(text@),
{
    let mut chars = text.chars();
    let ghost mut seen: int = 0;
    loop
        invariant
            0 <= seen <= text@.len(),
            chars.remaining() == text@.skip(seen),
            forall|i: int| 0 <= i < seen ==> alphabetic(#[trigger] text@[i]),
        decreases text@.len() - seen,
    {
        match chars.next() {
            Some(c) => {
                if !is_alphabetic(c) {
                    return false;
                }
                proof {
                    seen = seen + 1;
                }
            },
            None => {
                return true;
            },
        }
    }
}

} // verus!
