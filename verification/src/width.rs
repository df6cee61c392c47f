//! Width of a text on a terminal, in columns.

use vstd::prelude::*;

verus! {

/// Number of terminal columns that `text` takes when it is displayed, as the
/// Unicode rules on character width give it.
pub uninterp spec fn display_width(text: Seq<char>) -> nat;

/// Measures `text` with `unicode_width::UnicodeWidthStr::width`.
///
/// That function walks the characters of the text and adds up their widths
/// from tables of the Unicode standard; it reads nothing but the text. The
/// contract gives the number it returns the name `display_width` of the text.
#[verifier::external_body]
pub(crate) fn text_width(text: &str) -> (width: usize)
    ensures
        width == display_width(text@),
{
    unicode_width::UnicodeWidthStr::width(text)
}

} // verus!
