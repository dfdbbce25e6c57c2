//! Terminal colour and bold, applied through the `colored` crate.
//!
//! Whether `colored` emits escape sequences at all depends on the process
//! environment (`NO_COLOR`, `CLICOLOR`, `CLICOLOR_FORCE`, whether standard
//! output is a terminal, and any override set at run time), so a painted
//! piece is either the bare text or the text wrapped in one SGR sequence.
use vstd::prelude::*;

verus! {

/// The terminal colours this library paints with.
#[derive(Clone, Copy, Debug, PartialEq, Eq, Structural)]
pub enum Shade {
    Red,
    Green,
    Yellow,
    Blue,
    White,
}

/// How a piece of text is painted: foreground, background, bold.
#[derive(Clone, Copy, Debug, PartialEq, Eq, Structural)]
pub struct Ink {
    pub fg: Option<Shade>,
    pub bg: Option<Shade>,
    pub bold: bool,
}

/// An ink that changes nothing.
pub open spec fn is_bare(ink: Ink) -> bool {
    ink.fg is None && ink.bg is None && !ink.bold
}

/// The SGR parameter for a foreground colour.
pub open spec fn fg_code(s: Shade) -> Seq<char> {
    match s {
        Shade::Red => seq!['3', '1'],
        Shade::Green => seq!['3', '2'],
        Shade::Yellow => seq!['3', '3'],
        Shade::Blue => seq!['3', '4'],
        Shade::White => seq!['3', '7'],
    }
}

/// The SGR parameter for a background colour.
pub open spec fn bg_code(s: Shade) -> Seq<char> {
    match s {
        Shade::Red => seq!['4', '1'],
        Shade::Green => seq!['4', '2'],
        Shade::Yellow => seq!['4', '3'],
        Shade::Blue => seq!['4', '4'],
        Shade::White => seq!['4', '7'],
    }
}

/// Two SGR parameter lists joined with `;`, either of which may be empty.
pub open spec fn join_params(a: Seq<char>, b: Seq<char>) -> Seq<char> {
    if a.len() == 0 {
        b
    } else if b.len() == 0 {
        a
    } else {
        a + seq![';'] + b
    }
}

/// The SGR parameters of an ink, in the order `colored` writes them:
/// style, then background, then foreground.
pub open spec fn sgr_params(ink: Ink) -> Seq<char> {
    let style = if ink.bold { seq!['1'] } else { seq![] };
    let bg = match ink.bg {
        Some(s) => bg_code(s),
        None => seq![],
    };
    let fg = match ink.fg {
        Some(s) => fg_code(s),
        None => seq![],
    };
    join_params(join_params(style, bg), fg)
}

/// The escape sequence that opens a painted piece.
pub open spec fn sgr_open(ink: Ink) -> Seq<char> {
    seq!['\x1b', '['] + sgr_params(ink) + seq!['m']
}

/// The escape sequence that closes a painted piece.
pub open spec fn sgr_reset() -> Seq<char> {
    seq!['\x1b', '[', '0', 'm']
}

/// The text with `open` inserted after every reset sequence it holds, as
/// `colored` does so that a painted piece stays painted past an inner reset.
pub open spec fn reopened(text: Seq<char>, open: Seq<char>) -> Seq<char>
    decreases text.len(),
{
    if text.len() == 0 {
        seq![]
    } else if text.len() >= 4 && text.take(4) == sgr_reset() {
        sgr_reset() + open + reopened(text.skip(4), open)
    } else {
        seq![text[0]] + reopened(text.skip(1), open)
    }
}

/// `r` is what painting `text` with `ink` may give: the text itself when the
/// ink is bare or colouring is off in this environment; otherwise the opening
/// sequence, the text (re-opened after each inner reset), the reset sequence.
pub open spec fn painting(r: Seq<char>, text: Seq<char>, ink: Ink) -> bool {
    if is_bare(ink) {
        r == text
    } else {
        r == text || r == sgr_open(ink) + reopened(text, sgr_open(ink)) + sgr_reset()
    }
}

/// Text without an escape character is painted unchanged between the two
/// sequences: nothing is inserted into it.
pub proof fn lemma_reopened_plain(text: Seq<char>, open: Seq<char>)
    requires
        !text.contains('\x1b'),
    ensures
        reopened(text, open) == text,
    decreases text.len(),
{
    if text.len() > 0 {
        if text.len() >= 4 && text.take(4) == sgr_reset() {
            assert(text[0] == text.take(4)[0]);
        }
        assert(!text.skip(1).contains('\x1b')) by {
            if text.skip(1).contains('\x1b') {
                let k = choose|k: int| 0 <= k < text.skip(1).len() && text.skip(1)[k] == '\x1b';
                assert(text[k + 1] == '\x1b');
            }
        }
        lemma_reopened_plain(text.skip(1), open);
        assert(text =~= seq![text[0]] + text.skip(1));
    }
}

/// Relies on `colored::ColoredString` and its `Display` impl (through
/// `to_string`): a plain string is shown as it is; a styled one, when the
/// environment allows colour, as `ESC[<style>;<bg>;<fg>m`, the text with
/// that sequence repeated after each `ESC[0m` inside it, then `ESC[0m`.
#[verifier::external_body]
pub(crate) fn paint(text: &str, ink: Ink) -> (r: String)
    ensures
        painting(r@, text@, ink),
{
    let tone = |s: Shade| match s {
        Shade::Red => colored::Color::Red,
        Shade::Green => colored::Color::Green,
        Shade::Yellow => colored::Color::Yellow,
        Shade::Blue => colored::Color::Blue,
        Shade::White => colored::Color::White,
    };
    let mut piece = colored::ColoredString::from(text);
    piece.fgcolor = ink.fg.map(tone);
    piece.bgcolor = ink.bg.map(tone);
    piece.style = ink.bold.then_some(colored::Styles::Bold).into_iter().collect();
    piece.to_string()
}

} // verus!
