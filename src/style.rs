//! Terminal emphasis for the header line.

use vstd::prelude::*;

verus! {

/// The escape sequence that turns underlining on.
pub open spec fn underline_on() -> Seq<char> {
    seq!['\x1b', '[', '4', 'm']
}

/// The escape sequence that resets all styles.
pub open spec fn style_reset() -> Seq<char> {
    seq!['\x1b', '[', '0', 'm']
}

/// `s` wrapped in the underline attribute.
pub open spec fn underlined(s: Seq<char>) -> Seq<char> {
    underline_on() + s + style_reset()
}

/// Relies on ansi_term's `Style::paint` with a style that only underlines,
/// rendered through its `Display` impl: it writes the prefix `ESC [ 4 m`, the
/// text unchanged, then the reset `ESC [ 0 m`.
#[verifier::external_body]
pub(crate) fn underline(s: &str) -> (r: String)
    ensures
        r@ == underlined(s@),
{
    ansi_term::Style::new().underline().paint(s).to_string()
}

} // verus!
