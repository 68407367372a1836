//! The rendering style: plain text, or text wrapped in ANSI color
//! escape sequences.

use vstd::prelude::*;
use vstd::string::StringExecFns;

verus! {

/// Whether values are rendered as plain text or wrapped in ANSI escape
/// sequences.
#[derive(Clone, Copy, PartialEq, Eq, Structural, Debug)]
pub enum Style {
    Plain,
    Colored,
}

/// The foreground colors the renderer uses.
#[derive(Clone, Copy, PartialEq, Eq, Structural, Debug)]
pub enum Color {
    Red,
    Green,
    Yellow,
    Blue,
}

/// The ANSI escape sequence that switches the terminal to the given
/// foreground color.
pub open spec fn spec_color_prefix(c: Color) -> Seq<char> {
    match c {
        Color::Red => seq!['\u{1b}', '[', '3', '1', 'm'],
        Color::Green => seq!['\u{1b}', '[', '3', '2', 'm'],
        Color::Yellow => seq!['\u{1b}', '[', '3', '3', 'm'],
        Color::Blue => seq!['\u{1b}', '[', '3', '4', 'm'],
    }
}

/// The ANSI escape sequence that resets all terminal attributes.
pub open spec fn spec_reset() -> Seq<char> {
    seq!['\u{1b}', '[', '0', 'm']
}

/// How a value is displayed under a style: unchanged when plain, wrapped
/// in the color's escape sequence and a reset when colored.
pub open spec fn spec_paint(st: Style, c: Color, s: Seq<char>) -> Seq<char> {
    match st {
        Style::Plain => s,
        Style::Colored => spec_color_prefix(c) + s + spec_reset(),
    }
}

fn color_prefix(c: Color) -> (r: &'static str)
    ensures
        r@ == spec_color_prefix(c),
{
    match c {
        Color::Red => {
            let s = "\u{1b}[31m";
            proof {
                reveal_strlit("\u{1b}[31m");
                assert(s@ =~= spec_color_prefix(Color::Red));
            }
            s
        },
        Color::Green => {
            let s = "\u{1b}[32m";
            proof {
                reveal_strlit("\u{1b}[32m");
                assert(s@ =~= spec_color_prefix(Color::Green));
            }
            s
        },
        Color::Yellow => {
            let s = "\u{1b}[33m";
            proof {
                reveal_strlit("\u{1b}[33m");
                assert(s@ =~= spec_color_prefix(Color::Yellow));
            }
            s
        },
        Color::Blue => {
            let s = "\u{1b}[34m";
            proof {
                reveal_strlit("\u{1b}[34m");
                assert(s@ =~= spec_color_prefix(Color::Blue));
            }
            s
        },
    }
}

fn reset_str() -> (r: &'static str)
    ensures
        r@ == spec_reset(),
{
    let s = "\u{1b}[0m";
    proof {
        reveal_strlit("\u{1b}[0m");
        assert(s@ =~= spec_reset());
    }
    s
}

/// Render a value under the given style and color.
pub fn paint(s: &str, c: Color, st: Style) -> (r: String)
    ensures
        r@ == spec_paint(st, c, s@),
{
    match st {
        Style::Plain => s.to_owned(),
        Style::Colored => {
            let mut r = color_prefix(c).to_owned();
            r.append(s);
            r.append(reset_str());
            r
        },
    }
}

} // verus!
