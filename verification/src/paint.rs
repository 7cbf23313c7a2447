use vstd::prelude::*;
use crate::diagnostic::Emphasis;

verus! {

/// The escape sequence that switches a terminal to the colour of `emphasis`:
/// green for success, red for failure.
pub open spec fn ansi_prefix(emphasis: Emphasis) -> Seq<char> {
    match emphasis {
        Emphasis::Success => seq!['\u{1b}', '[', '3', '2', 'm'],
        Emphasis::Failure => seq!['\u{1b}', '[', '3', '1', 'm'],
    }
}

/// The escape sequence that switches a terminal back to its plain style.
pub open spec fn ansi_reset() -> Seq<char> {
    seq!['\u{1b}', '[', '0', 'm']
}

/// `text` in the colour of `emphasis` where colouring is `on`, and plain
/// where it is off.
pub open spec fn painted(text: Seq<char>, emphasis: Emphasis, on: bool) -> Seq<char> {
    if on {
        ansi_prefix(emphasis) + text + ansi_reset()
    } else {
        text
    }
}

/// `out` is `text` painted in `emphasis`, with colouring either on or off.
pub open spec fn is_painting(out: Seq<char>, text: Seq<char>, emphasis: Emphasis) -> bool {
    out == painted(text, emphasis, true) || out == painted(text, emphasis, false)
}

/// Paints `text` with `ariadne::Fmt::fg` and formats the outcome.
///
/// Trusted: the colouring is switched process-wide and depends on the
/// terminal's abilities, so the contract admits both outcomes. Either the
/// text comes back as it is, or it stands between the escape sequence of the
/// colour (green for success, red for failure) and the reset sequence.
#[verifier::external_body]
pub(crate) fn paint(text: &str, emphasis: Emphasis) -> (out: String)
    ensures
        is_painting(out@, text@, emphasis),
{
    let color = match emphasis {
        Emphasis::Success => ariadne::Color::Green,
        Emphasis::Failure => ariadne::Color::Red,
    };
    format!("{}", ariadne::Fmt::fg(text, color))
}

} // verus!
