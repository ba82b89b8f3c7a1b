//! Icons attached to installation steps.

use vstd::prelude::*;

verus! {

/// An icon to display for a step.
pub enum Icon {
    /// A standard icon (free desktop icon name).
    Standard(String),
    /// A symbolic icon (free desktop icon name).
    Symbolic {
        /// The icon name.
        name: String,
        /// The fallback icon name.
        fallback: String,
    },
    /// An emoji icon.
    Emoji(String),
    /// A path to a custom icon, with a specified width and height.
    Custom(String, u32, u32),
}

/// The decimal digit character for `d`.
pub open spec fn digit_char(d: nat) -> char {
    if d == 0 {
        '0'
    } else if d == 1 {
        '1'
    } else if d == 2 {
        '2'
    } else if d == 3 {
        '3'
    } else if d == 4 {
        '4'
    } else if d == 5 {
        '5'
    } else if d == 6 {
        '6'
    } else if d == 7 {
        '7'
    } else if d == 8 {
        '8'
    } else {
        '9'
    }
}

/// The decimal rendering of `n`, most significant digit first, without
/// leading zeroes (except for `n == 0` itself).
pub open spec fn dec_str(n: nat) -> Seq<char>
    decreases n,
{
    if n < 10 {
        seq![digit_char(n)]
    } else {
        dec_str(n / 10) + seq![digit_char(n % 10)]
    }
}

/// The one-character string for a decimal digit.
fn digit_str(d: u32) -> (r: &'static str)
    requires
        d < 10,
    ensures
        r@ =~= seq![digit_char(d as nat)],
{
    proof {
        reveal_strlit("0");
        reveal_strlit("1");
        reveal_strlit("2");
        reveal_strlit("3");
        reveal_strlit("4");
        reveal_strlit("5");
        reveal_strlit("6");
        reveal_strlit("7");
        reveal_strlit("8");
        reveal_strlit("9");
    }
    match d {
        0 => "0",
        1 => "1",
        2 => "2",
        3 => "3",
        4 => "4",
        5 => "5",
        6 => "6",
        7 => "7",
        8 => "8",
        _ => "9",
    }
}

/// Appends the decimal rendering of `n` to `out`.
fn append_dec(n: u32, out: &mut String)
    ensures
        final(out)@ == old(out)@ + dec_str(n as nat),
    decreases n,
{
    if n < 10 {
        out.append(digit_str(n));
    } else {
        assert(n / 10 < n) by (nonlinear_arith)
            requires
                n >= 10,
        ;
        append_dec(n / 10, out);
        out.append(digit_str(n % 10));
        proof {
            assert(old(out)@ + dec_str((n / 10) as nat) + seq![digit_char((n % 10) as nat)]
                =~= old(out)@ + dec_str(n as nat));
        }
    }
}

/// The decimal rendering of `n` as a string.
pub fn u32_string(n: u32) -> (r: String)
    ensures
        r@ == dec_str(n as nat),
{
    let mut out = String::new();
    append_dec(n, &mut out);
    proof {
        assert(Seq::<char>::empty() + dec_str(n as nat) =~= dec_str(n as nat));
    }
    out
}

impl Icon {
    /// The rendered display form of the icon: the icon name, a symbolic name
    /// with its fallback, the emoji itself, or a custom path with its size.
    pub fn display_string(&self) -> (r: String)
        ensures
            self matches Icon::Standard(name) ==> r@ == name@,
            self matches Icon::Emoji(emoji) ==> r@ == emoji@,
            self matches Icon::Symbolic { name, fallback } ==> r@ == name@ + " (fallback: "@
                + fallback@ + ")"@,
            self matches Icon::Custom(path, w, h) ==> r@ == path@ + " ("@ + dec_str(w as nat)
                + "x"@ + dec_str(h as nat) + ")"@,
    {
        match self {
            Icon::Standard(name) => name.clone(),
            Icon::Emoji(emoji) => emoji.clone(),
            Icon::Symbolic { name, fallback } => {
                let mut out = name.clone();
                out.append(" (fallback: ");
                out.append(fallback.as_str());
                out.append(")");
                out
            }
            Icon::Custom(path, w, h) => {
                let mut out = path.clone();
                out.append(" (");
                append_dec(*w, &mut out);
                out.append("x");
                append_dec(*h, &mut out);
                out.append(")");
                out
            }
        }
    }
}

} // verus!
