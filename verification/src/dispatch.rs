//! The action dispatcher: maps a recognized gesture to the argument list of
//! the external command that performs its action.

use vstd::prelude::*;
use vstd::string::StringExecFns;
use crate::gesture::Gesture;

verus! {

/// The decimal digit character for `d`.
pub open spec fn digit_char(d: int) -> char {
    if d == 0 {
        '0'
    } else if d == 1 {
        '1'
    } else if d == 2 {
        '2'
    } else if d == 3 {
        '3'
    } else if d == 4 {
        '4'
    } else if d == 5 {
        '5'
    } else if d == 6 {
        '6'
    } else if d == 7 {
        '7'
    } else if d == 8 {
        '8'
    } else {
        '9'
    }
}

/// The decimal numeral of `n`, most significant digit first, no leading
/// zeros (a lone zero for `n == 0`).
pub open spec fn dec_str(n: nat) -> Seq<char>
    decreases n,
{
    if n < 10 {
        seq![digit_char(n as int)]
    } else {
        dec_str(n / 10).push(digit_char((n % 10) as int))
    }
}

/// A magnitude of `t` tenths of a pixel, written in pixels as a decimal
/// numeral with exactly one fractional digit.
pub open spec fn tenths_str(t: nat) -> Seq<char> {
    dec_str(t / 10).push('.').push(digit_char((t % 10) as int))
}

/// The command line dispatched for a gesture: the shell, the gesture script,
/// the gesture's tag, and, for slides, the magnitude in pixels.
pub open spec fn command_line(g: Gesture) -> Seq<Seq<char>> {
    match g {
        Gesture::SlideLeft(d) => seq![
            "sh"@,
            "gestures.sh"@,
            "TopEdgeSlideLeft"@,
            tenths_str(d as nat),
        ],
        Gesture::SlideRight(d) => seq![
            "sh"@,
            "gestures.sh"@,
            "TopEdgeSlideRight"@,
            tenths_str(d as nat),
        ],
        Gesture::PullLeft => seq!["sh"@, "gestures.sh"@, "TopEdgePullLeft"@],
        Gesture::PullMid => seq!["sh"@, "gestures.sh"@, "TopEdgePullMid"@],
        Gesture::PullRight => seq!["sh"@, "gestures.sh"@, "TopEdgePullRight"@],
    }
}

/// The one-character string holding the decimal digit of `d`.
fn digit_literal(d: u64) -> (r: &'static str)
    requires
        d < 10,
    ensures
        r@ == seq![digit_char(d as int)],
{
    if d == 0 {
        proof {
            reveal_strlit("0");
            assert(("0")@ =~= seq![digit_char(0)]);
        }
        "0"
    } else if d == 1 {
        proof {
            reveal_strlit("1");
            assert(("1")@ =~= seq![digit_char(1)]);
        }
        "1"
    } else if d == 2 {
        proof {
            reveal_strlit("2");
            assert(("2")@ =~= seq![digit_char(2)]);
        }
        "2"
    } else if d == 3 {
        proof {
            reveal_strlit("3");
            assert(("3")@ =~= seq![digit_char(3)]);
        }
        "3"
    } else if d == 4 {
        proof {
            reveal_strlit("4");
            assert(("4")@ =~= seq![digit_char(4)]);
        }
        "4"
    } else if d == 5 {
        proof {
            reveal_strlit("5");
            assert(("5")@ =~= seq![digit_char(5)]);
        }
        "5"
    } else if d == 6 {
        proof {
            reveal_strlit("6");
            assert(("6")@ =~= seq![digit_char(6)]);
        }
        "6"
    } else if d == 7 {
        proof {
            reveal_strlit("7");
            assert(("7")@ =~= seq![digit_char(7)]);
        }
        "7"
    } else if d == 8 {
        proof {
            reveal_strlit("8");
            assert(("8")@ =~= seq![digit_char(8)]);
        }
        "8"
    } else {
        proof {
            reveal_strlit("9");
            assert(("9")@ =~= seq![digit_char(9)]);
        }
        "9"
    }
}

/// Appends the decimal numeral of `n` to `s`.
fn push_decimal(s: &mut String, n: u64)
    ensures
        final(s)@ == old(s)@ + dec_str(n as nat),
    decreases n,
{
    if n >= 10 {
        push_decimal(s, n / 10);
    }
    let d = digit_literal(n % 10);
    s.append(d);
    proof {
        assert(s@ =~= old(s)@ + dec_str(n as nat));
    }
}

/// Writes a magnitude of `t` tenths of a pixel as a decimal string in
/// pixels, with one fractional digit.
pub fn format_tenths(t: u64) -> (s: String)
    ensures
        s@ == tenths_str(t as nat),
{
    let mut s = String::new();
    push_decimal(&mut s, t / 10);
    s.append(".");
    let d = digit_literal(t % 10);
    s.append(d);
    proof {
        reveal_strlit(".");
        assert(s@ =~= tenths_str(t as nat));
    }
    s
}

/// The argument list of the external command invoked for `g`: its first
/// element is the program, the rest are the program's arguments. The list is
/// a function of the gesture alone, so dispatching the same gesture twice
/// hands the command identical arguments both times.
pub fn command_args(g: &Gesture) -> (args: Vec<String>)
    ensures
        args@.map_values(|a: String| a@) == command_line(*g),
{
    let mut args: Vec<String> = Vec::new();
    args.push("sh".to_owned());
    args.push("gestures.sh".to_owned());
    match g {
        Gesture::SlideLeft(d) => {
            args.push("TopEdgeSlideLeft".to_owned());
            args.push(format_tenths(*d));
        },
        Gesture::SlideRight(d) => {
            args.push("TopEdgeSlideRight".to_owned());
            args.push(format_tenths(*d));
        },
        Gesture::PullLeft => {
            args.push("TopEdgePullLeft".to_owned());
        },
        Gesture::PullMid => {
            args.push("TopEdgePullMid".to_owned());
        },
        Gesture::PullRight => {
            args.push("TopEdgePullRight".to_owned());
        },
    }
    proof {
        assert(args@.map_values(|a: String| a@) =~= command_line(*g));
    }
    args
}

} // verus!
