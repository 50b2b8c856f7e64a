//! Trusted boundary to the Unicode crates.
//!
//! Grapheme segmentation and display-width measurement are functions of
//! their input string alone, but their full definitions (UAX #29 and
//! UAX #11 tables) are far too large to restate here.  Each therefore
//! gets an uninterpreted name, and the wrappers below relate the real
//! calls to those names.  Everything downstream is verified against the
//! names, never against a restatement of the Unicode algorithms.

use vstd::prelude::*;

use unicode_segmentation::UnicodeSegmentation;
use unicode_width::UnicodeWidthStr;

verus! {

/// The sequence of extended grapheme clusters of `s`, in order.  The
/// clusters are consecutive substrings of `s` that cover it completely,
/// which is why their concatenation is `s` itself (stated by the wrapper
/// below).
pub uninterp spec fn graphemes_of(s: Seq<char>) -> Seq<Seq<char>>;

/// The displayed column width of `s` on a terminal, counted in cells.
pub uninterp spec fn display_width_of(s: Seq<char>) -> nat;

/// Relies on unicode_segmentation's `UnicodeSegmentation::graphemes`
/// (extended clusters): it yields the grapheme clusters of `s` as
/// consecutive substrings of `s`, so concatenating them gives back `s`.
#[verifier::external_body]
pub(crate) fn split_graphemes(s: &str) -> (r: Vec<String>)
    ensures
        r@.map_values(|g: String| g@) == graphemes_of(s@),
        r@.map_values(|g: String| g@).flatten() == s@,
{
    let mut out: Vec<String> = Vec::new();
    for g in s.graphemes(true) {
        out.push(g.to_owned());
    }
    out
}

/// Relies on unicode_width's `UnicodeWidthStr::width`: the displayed
/// width of a string in columns, a function of its characters alone.
#[verifier::external_body]
pub(crate) fn measure_width(s: &str) -> (r: usize)
    ensures
        r == display_width_of(s@),
{
    s.width()
}

/// Relies on std's `String::from` for `char`: the returned string holds
/// exactly the one given character.
#[verifier::external_body]
pub(crate) fn char_to_string(c: char) -> (r: String)
    ensures
        r@ == seq![c],
{
    String::from(c)
}

} // verus!
