//! Text building blocks of the renderer: decimal numbers and bracketed,
//! quoted, comma-joined lists.

use vstd::prelude::*;
use vstd::string::StringExecFns;

use crate::style::{paint, spec_paint, Color, Style};

verus! {

/// The decimal digit character for `d`.
pub open spec fn spec_digit(d: nat) -> char {
    if d == 0 {
        '0'
    } else if d == 1 {
        '1'
    } else if d == 2 {
        '2'
    } else if d == 3 {
        '3'
    } else if d == 4 {
        '4'
    } else if d == 5 {
        '5'
    } else if d == 6 {
        '6'
    } else if d == 7 {
        '7'
    } else if d == 8 {
        '8'
    } else {
        '9'
    }
}

/// The decimal rendering of `n`, most significant digit first, with no
/// leading zeros (a single `'0'` for zero).
pub open spec fn spec_decimal(n: nat) -> Seq<char>
    decreases n,
{
    if n < 10 {
        seq![spec_digit(n)]
    } else {
        spec_decimal(n / 10) + seq![spec_digit(n % 10)]
    }
}

fn digit_str(d: u64) -> (r: &'static str)
    requires
        d < 10,
    ensures
        r@ == seq![spec_digit(d as nat)],
{
    if d == 0 {
        let s = "0";
        proof {
            reveal_strlit("0");
            assert(s@ =~= seq![spec_digit(0)]);
        }
        s
    } else if d == 1 {
        let s = "1";
        proof {
            reveal_strlit("1");
            assert(s@ =~= seq![spec_digit(1)]);
        }
        s
    } else if d == 2 {
        let s = "2";
        proof {
            reveal_strlit("2");
            assert(s@ =~= seq![spec_digit(2)]);
        }
        s
    } else if d == 3 {
        let s = "3";
        proof {
            reveal_strlit("3");
            assert(s@ =~= seq![spec_digit(3)]);
        }
        s
    } else if d == 4 {
        let s = "4";
        proof {
            reveal_strlit("4");
            assert(s@ =~= seq![spec_digit(4)]);
        }
        s
    } else if d == 5 {
        let s = "5";
        proof {
            reveal_strlit("5");
            assert(s@ =~= seq![spec_digit(5)]);
        }
        s
    } else if d == 6 {
        let s = "6";
        proof {
            reveal_strlit("6");
            assert(s@ =~= seq![spec_digit(6)]);
        }
        s
    } else if d == 7 {
        let s = "7";
        proof {
            reveal_strlit("7");
            assert(s@ =~= seq![spec_digit(7)]);
        }
        s
    } else if d == 8 {
        let s = "8";
        proof {
            reveal_strlit("8");
            assert(s@ =~= seq![spec_digit(8)]);
        }
        s
    } else {
        let s = "9";
        proof {
            reveal_strlit("9");
            assert(s@ =~= seq![spec_digit(9)]);
        }
        s
    }
}

fn push_decimal(out: &mut String, n: u64)
    ensures
        final(out)@ == old(out)@ + spec_decimal(n as nat),
    decreases n,
{
    if n >= 10 {
        assert(n / 10 < n) by (nonlinear_arith)
            requires
                n >= 10,
        ;
        push_decimal(out, n / 10);
    }
    out.append(digit_str(n % 10));
    assert(final(out)@ =~= old(out)@ + spec_decimal(n as nat));
}

/// The decimal rendering of `n` as a `String`.
pub fn decimal_string(n: u64) -> (r: String)
    ensures
        r@ == spec_decimal(n as nat),
{
    let mut r = String::new();
    push_decimal(&mut r, n);
    proof {
        assert(r@ =~= spec_decimal(n as nat));
    }
    r
}

/// A list element as rendered: the styled value inside double quotes.
pub open spec fn spec_quoted(st: Style, c: Color, s: Seq<char>) -> Seq<char> {
    seq!['"'] + spec_paint(st, c, s) + seq!['"']
}

/// The inside of a bracketed list: the quoted, styled elements joined by
/// a comma and a space.
pub open spec fn spec_list_body(items: Seq<Seq<char>>, st: Style, c: Color) -> Seq<char>
    decreases items.len(),
{
    if items.len() == 0 {
        Seq::empty()
    } else if items.len() == 1 {
        spec_quoted(st, c, items[0])
    } else {
        spec_quoted(st, c, items[0]) + seq![',', ' '] + spec_list_body(
            items.drop_first(),
            st,
            c,
        )
    }
}

/// A labeled bracketed list line: `Label: ["a", "b"]`.
pub open spec fn spec_list_line(
    label: Seq<char>,
    items: Seq<Seq<char>>,
    st: Style,
    c: Color,
) -> Seq<char> {
    label + seq![':', ' ', '['] + spec_list_body(items, st, c) + seq![']']
}

fn push_quoted(out: &mut String, s: &str, c: Color, st: Style)
    ensures
        final(out)@ == old(out)@ + spec_quoted(st, c, s@),
{
    let q = "\"";
    proof {
        reveal_strlit("\"");
        assert(q@ =~= seq!['"']);
    }
    out.append(q);
    let p = paint(s, c, st);
    out.append(p.as_str());
    out.append(q);
    assert(final(out)@ =~= old(out)@ + spec_quoted(st, c, s@));
}

fn push_list_body(out: &mut String, items: &Vec<String>, from: usize, c: Color, st: Style)
    requires
        from <= items@.len(),
    ensures
        final(out)@ == old(out)@ + spec_list_body(items.deep_view().skip(from as int), st, c),
    decreases items@.len() - from,
{
    if from < items.len() {
        push_quoted(out, items[from].as_str(), c, st);
        if from + 1 < items.len() {
            let sep = ", ";
            proof {
                reveal_strlit(", ");
                assert(sep@ =~= seq![',', ' ']);
            }
            out.append(sep);
        }
        push_list_body(out, items, from + 1, c, st);
        proof {
            let d = items.deep_view();
            assert(d.skip(from as int)[0] == items@[from as int]@);
            assert(d.skip(from as int).drop_first() =~= d.skip(from as int + 1));
            assert(final(out)@ =~= old(out)@ + spec_list_body(d.skip(from as int), st, c));
        }
    } else {
        proof {
            assert(items.deep_view().skip(from as int).len() == 0);
            assert(final(out)@ =~= old(out)@ + spec_list_body(
                items.deep_view().skip(from as int),
                st,
                c,
            ));
        }
    }
}

/// Render a labeled bracketed list line with each element quoted and
/// styled in the given color.
pub fn list_line(label: &str, items: &Vec<String>, c: Color, st: Style) -> (r: String)
    ensures
        r@ == spec_list_line(label@, items.deep_view(), st, c),
{
    let mut r = label.to_owned();
    let open_bracket = ": [";
    proof {
        reveal_strlit(": [");
        assert(open_bracket@ =~= seq![':', ' ', '[']);
    }
    r.append(open_bracket);
    push_list_body(&mut r, items, 0, c, st);
    let close_bracket = "]";
    proof {
        reveal_strlit("]");
        assert(close_bracket@ =~= seq![']']);
    }
    r.append(close_bracket);
    proof {
        assert(items.deep_view().skip(0) =~= items.deep_view());
        assert(r@ =~= spec_list_line(label@, items.deep_view(), st, c));
    }
    r
}

/// A bracketed list of no elements renders as the label followed by
/// `: []`.
pub proof fn lemma_list_line_empty(label: Seq<char>, st: Style, c: Color)
    ensures
        spec_list_line(label, Seq::<Seq<char>>::empty(), st, c) == label + ": []"@,
{
    reveal_strlit(": []");
    assert(spec_list_line(label, Seq::<Seq<char>>::empty(), st, c) =~= label + ": []"@);
}

} // verus!
