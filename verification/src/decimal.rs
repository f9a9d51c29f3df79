//! Token amounts as decimal text.
//!
//! An amount is a whole number of base units; `decimals` says how many of
//! its digits stand behind the point. The text is exact: no rounding, no
//! exponent, no zeros at the end of the fraction.

use vstd::prelude::*;
use vstd::string::StringExecFns;

verus! {

/// Ten to the power `n`.
pub open spec fn pow10(n: nat) -> nat
    decreases n,
{
    if n == 0 {
        1
    } else {
        10 * pow10((n - 1) as nat)
    }
}

/// The character of the digit `d`.
pub open spec fn digit_char(d: nat) -> char {
    if d == 0 {
        '0'
    } else if d == 1 {
        '1'
    } else if d == 2 {
        '2'
    } else if d == 3 {
        '3'
    } else if d == 4 {
        '4'
    } else if d == 5 {
        '5'
    } else if d == 6 {
        '6'
    } else if d == 7 {
        '7'
    } else if d == 8 {
        '8'
    } else {
        '9'
    }
}

/// The digits of `n`, the most significant first, without leading zeros;
/// one `0` for zero.
pub open spec fn digits(n: nat) -> Seq<char>
    decreases n,
{
    if n < 10 {
        seq![digit_char(n)]
    } else {
        digits(n / 10).push(digit_char(n % 10))
    }
}

/// The last `width` digits of `f`, with zeros in front where `f` has fewer.
pub open spec fn padded(f: nat, width: nat) -> Seq<char>
    decreases width,
{
    if width == 0 {
        Seq::empty()
    } else {
        padded(f / 10, (width - 1) as nat).push(digit_char(f % 10))
    }
}

/// `padded(f, width)` without the zeros at its end.
pub open spec fn trimmed(f: nat, width: nat) -> Seq<char>
    decreases width,
{
    if width == 0 {
        Seq::empty()
    } else if f % 10 == 0 {
        trimmed(f / 10, (width - 1) as nat)
    } else {
        padded(f, width)
    }
}

/// The size of `units`, whatever its sign.
pub open spec fn magnitude(units: int) -> nat {
    if units < 0 {
        (-units) as nat
    } else {
        units as nat
    }
}

/// `units` base units as a decimal number of tokens with `decimals` digits
/// behind the point: a `-` where `units` is negative, the whole tokens, and,
/// unless the rest is zero, a point and the rest.
pub open spec fn decimal_text(units: int, decimals: nat) -> Seq<char> {
    let whole = magnitude(units) / pow10(decimals);
    let rest = magnitude(units) % pow10(decimals);
    let sign = if units < 0 {
        seq!['-']
    } else {
        Seq::empty()
    };
    let fraction = if rest == 0 {
        Seq::empty()
    } else {
        seq!['.'] + trimmed(rest, decimals)
    };
    sign + digits(whole) + fraction
}

/// Powers of ten are positive and grow with the exponent.
pub proof fn lemma_pow10_grows(a: nat, b: nat)
    requires
        a <= b,
    ensures
        0 < pow10(a) <= pow10(b),
    decreases b,
{
    if b > 0 {
        lemma_pow10_grows(0, (b - 1) as nat);
        if a < b {
            lemma_pow10_grows(a, (b - 1) as nat);
        }
    }
}

/// The largest power of ten that a `u64` holds is the nineteenth.
pub proof fn lemma_pow10_u64()
    ensures
        pow10(19) == 10_000_000_000_000_000_000,
        pow10(19) <= u64::MAX < pow10(20),
{
    reveal_with_fuel(pow10, 21);
}

fn digit_str(d: u64) -> (s: &'static str)
    requires
        d < 10,
    ensures
        s@ == seq![digit_char(d as nat)],
{
    proof {
        reveal_strlit("0");
        reveal_strlit("1");
        reveal_strlit("2");
        reveal_strlit("3");
        reveal_strlit("4");
        reveal_strlit("5");
        reveal_strlit("6");
        reveal_strlit("7");
        reveal_strlit("8");
        reveal_strlit("9");
    }
    let s = if d == 0 {
        "0"
    } else if d == 1 {
        "1"
    } else if d == 2 {
        "2"
    } else if d == 3 {
        "3"
    } else if d == 4 {
        "4"
    } else if d == 5 {
        "5"
    } else if d == 6 {
        "6"
    } else if d == 7 {
        "7"
    } else if d == 8 {
        "8"
    } else {
        "9"
    };
    s
}

fn push_digits(out: &mut String, n: u64)
    ensures
        final(out)@ == old(out)@ + digits(n as nat),
    decreases n,
{
    if n >= 10 {
        push_digits(out, n / 10);
    }
    out.append(digit_str(n % 10));
}

fn push_padded(out: &mut String, f: u64, width: u8)
    ensures
        final(out)@ == old(out)@ + padded(f as nat, width as nat),
    decreases width,
{
    if width > 0 {
        push_padded(out, f / 10, width - 1);
        out.append(digit_str(f % 10));
    }
}

fn push_trimmed(out: &mut String, f: u64, width: u8)
    ensures
        final(out)@ == old(out)@ + trimmed(f as nat, width as nat),
{
    let mut rest: u64 = f;
    let mut left: u8 = width;
    while left > 0 && rest % 10 == 0
        invariant
            trimmed(rest as nat, left as nat) == trimmed(f as nat, width as nat),
        decreases left,
    {
        rest = rest / 10;
        left = left - 1;
    }
    push_padded(out, rest, left);
}

/// Ten to the power `decimals`, where a `u64` holds it.
pub fn scale(decimals: u8) -> (r: Option<u64>)
    ensures
        match r {
            Some(s) => s == pow10(decimals as nat),
            None => pow10(decimals as nat) > u64::MAX,
        },
{
    proof {
        lemma_pow10_u64();
    }
    if decimals > 19 {
        proof {
            lemma_pow10_grows(20, decimals as nat);
        }
        return None;
    }
    let mut s: u64 = 1;
    let mut i: u8 = 0;
    while i < decimals
        invariant
            i <= decimals <= 19,
            s == pow10(i as nat),
            pow10(19) <= u64::MAX,
        decreases decimals - i,
    {
        proof {
            lemma_pow10_grows((i + 1) as nat, 19);
        }
        s = s * 10;
        i = i + 1;
    }
    Some(s)
}

/// The text of an amount of `size` base units, negative if `negative` says
/// so and `size` is not zero.
pub fn format_amount(negative: bool, size: u64, decimals: u8) -> (text: String)
    ensures
        text@ == decimal_text(
            if negative {
                -(size as int)
            } else {
                size as int
            },
            decimals as nat,
        ),
{
    let mut text = String::new();
    if negative && size > 0 {
        proof {
            reveal_strlit("-");
        }
        text.append("-");
    }
    let (whole, rest): (u64, u64) = match scale(decimals) {
        Some(s) => {
            proof {
                lemma_pow10_grows(0, decimals as nat);
            }
            (size / s, size % s)
        },
        None => {
            proof {
                let p = pow10(decimals as nat);
                vstd::arithmetic::div_mod::lemma_small_mod(size as nat, p);
                vstd::arithmetic::div_mod::lemma_basic_div(size as int, p as int);
            }
            (0, size)
        },
    };
    push_digits(&mut text, whole);
    if rest > 0 {
        proof {
            reveal_strlit(".");
        }
        text.append(".");
        push_trimmed(&mut text, rest, decimals);
    }
    text
}

} // verus!
