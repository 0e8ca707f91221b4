use vstd::prelude::*;

verus! {

/// The escape character that starts a terminal control sequence.
pub const ESC: char = '\u{1b}';

/// Whether `s` holds no escape character, so that styling cannot disturb it.
pub open spec fn is_plain_text(s: Seq<char>) -> bool {
    forall|i: int| 0 <= i < s.len() ==> s[i] != ESC
}

/// The sequence that switches bold on.
pub open spec fn bold_start() -> Seq<char> {
    seq![ESC, '[', '1', 'm']
}

/// The sequence that switches bold and italics on.
pub open spec fn bold_italic_start() -> Seq<char> {
    seq![ESC, '[', '1', ';', '3', 'm']
}

/// The sequence that switches every style off.
pub open spec fn reset() -> Seq<char> {
    seq![ESC, '[', '0', 'm']
}

/// Whether `r` is `s` styled by the sequence `start`: the text alone where
/// the terminal takes no styles, else between `start` and a reset.
pub open spec fn styled(r: Seq<char>, s: Seq<char>, start: Seq<char>) -> bool {
    r == s || r == start + s + reset()
}

/// Relies on colored's `Colorize::bold` for `&str` and the `Display` of its
/// `ColoredString`: without colour it writes the text alone, else the bold
/// sequence, the text (altered only at reset sequences inside it) and a reset.
#[verifier::external_body]
pub(crate) fn bold(s: &str) -> (r: String)
    requires
        is_plain_text(s@),
    ensures
        r@ == s@ || r@ == bold_start() + s@ + reset(),
{
    colored::Colorize::bold(s).to_string()
}

/// Relies on colored's `Colorize::italic` for `&str`, then `bold` and the
/// `Display` of the `ColoredString` that it gives: as for `bold`, with the
/// sequence for bold and italics together.
#[verifier::external_body]
pub(crate) fn bold_italic(s: &str) -> (r: String)
    requires
        is_plain_text(s@),
    ensures
        r@ == s@ || r@ == bold_italic_start() + s@ + reset(),
{
    colored::Colorize::bold(colored::Colorize::italic(s)).to_string()
}

} // verus!
