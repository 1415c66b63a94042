//! Text that the dispatcher derives: lower-cased names and decimal amounts.

use vstd::prelude::*;

verus! {

/// The lower-cased form of a text, as `str::to_lowercase` computes it.
pub uninterp spec fn lowercase(s: Seq<char>) -> Seq<char>;

/// Calls `str::to_lowercase`. Trusted: the result is the lower-cased form of
/// `s`, which depends on the characters of `s` alone.
#[verifier::external_body]
pub(crate) fn to_lowercase(s: &str) -> (r: String)
    ensures
        r@ == lowercase(s@),
{
    s.to_lowercase()
}

/// The character of one decimal digit.
pub open spec fn digit(d: nat) -> char {
    if d == 0 {
        '0'
    } else if d == 1 {
        '1'
    } else if d == 2 {
        '2'
    } else if d == 3 {
        '3'
    } else if d == 4 {
        '4'
    } else if d == 5 {
        '5'
    } else if d == 6 {
        '6'
    } else if d == 7 {
        '7'
    } else if d == 8 {
        '8'
    } else {
        '9'
    }
}

/// A number in decimal, most significant digit first, without leading zeros.
pub open spec fn decimal(n: nat) -> Seq<char>
    decreases n,
{
    if n < 10 {
        seq![digit(n)]
    } else {
        decimal(n / 10).push(digit(n % 10))
    }
}

/// One decimal digit as a text.
fn digit_text(d: u128) -> (s: &'static str)
    requires
        d < 10,
    ensures
        s@ == seq![digit(d as nat)],
{
    proof {
        reveal_strlit("0");
        reveal_strlit("1");
        reveal_strlit("2");
        reveal_strlit("3");
        reveal_strlit("4");
        reveal_strlit("5");
        reveal_strlit("6");
        reveal_strlit("7");
        reveal_strlit("8");
        reveal_strlit("9");
    }
    let s = if d == 0 {
        "0"
    } else if d == 1 {
        "1"
    } else if d == 2 {
        "2"
    } else if d == 3 {
        "3"
    } else if d == 4 {
        "4"
    } else if d == 5 {
        "5"
    } else if d == 6 {
        "6"
    } else if d == 7 {
        "7"
    } else if d == 8 {
        "8"
    } else {
        "9"
    };
    assert(s@ =~= seq![digit(d as nat)]);
    s
}

/// An amount in decimal digits, without sign, padding or leading zeros.
pub fn decimal_string(amount: u128) -> (r: String)
    ensures
        r@ == decimal(amount as nat),
{
    let mut rest: u128 = amount / 10;
    let mut out = String::from_str(digit_text(amount % 10));
    while rest > 0
        invariant
            rest == 0 ==> out@ == decimal(amount as nat),
            rest > 0 ==> decimal(rest as nat) + out@ == decimal(amount as nat),
        decreases rest,
    {
        let ghost low = out@;
        out = String::from_str(digit_text(rest % 10)).concat(out.as_str());
        proof {
            let d = seq![digit((rest % 10) as nat)];
            assert(out@ == d + low);
            if rest < 10 {
                assert(decimal(rest as nat) == d);
            } else {
                assert(decimal(rest as nat) == decimal((rest / 10) as nat).push(digit((rest % 10) as nat)));
                assert(decimal((rest / 10) as nat) + (d + low) =~= decimal(rest as nat) + low);
            }
        }
        rest = rest / 10;
    }
    out
}

} // verus!
