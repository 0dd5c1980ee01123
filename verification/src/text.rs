//! Plain-text formatting of the values that go on the wire: decimal
//! numerals, booleans, and the rating's no-trailing-zero decimal form.

use vstd::prelude::*;

verus! {

/// The decimal digit character of `d` (meaningful for `d < 10`).
pub open spec fn digit_char(d: nat) -> char {
    if d == 0 {
        '0'
    } else if d == 1 {
        '1'
    } else if d == 2 {
        '2'
    } else if d == 3 {
        '3'
    } else if d == 4 {
        '4'
    } else if d == 5 {
        '5'
    } else if d == 6 {
        '6'
    } else if d == 7 {
        '7'
    } else if d == 8 {
        '8'
    } else {
        '9'
    }
}

/// The decimal numeral of `n`: most significant digit first, no sign, no
/// leading zeros (a single `'0'` for zero itself).
pub open spec fn dec_of(n: nat) -> Seq<char>
    decreases n,
{
    if n < 10 {
        seq![digit_char(n)]
    } else {
        dec_of(n / 10).push(digit_char(n % 10))
    }
}

/// The decimal numeral of `n`, with a leading minus sign when negative.
pub open spec fn int_dec_of(n: int) -> Seq<char> {
    if n < 0 {
        seq!['-'] + dec_of((-n) as nat)
    } else {
        dec_of(n as nat)
    }
}

/// The wire form of a boolean.
pub open spec fn bool_wire(b: bool) -> Seq<char> {
    if b {
        "true"@
    } else {
        "false"@
    }
}

/// The decimal text of a rating given in hundredths, written the way the
/// default floating-point formatting would print the same value: the whole
/// part, then a fractional part only when it is nonzero, with no trailing
/// zero digits (`120` gives `1.2`, `105` gives `1.05`, `500` gives `5`).
pub open spec fn rating_wire(centi: nat) -> Seq<char> {
    if centi % 100 == 0 {
        dec_of(centi / 100)
    } else if centi % 10 == 0 {
        dec_of(centi / 100) + "."@ + seq![digit_char((centi / 10) % 10)]
    } else {
        dec_of(centi / 100) + "."@ + seq![digit_char((centi / 10) % 10), digit_char(centi % 10)]
    }
}

fn digit_str(d: u64) -> (r: &'static str)
    requires
        d < 10,
    ensures
        r@ == seq![digit_char(d as nat)],
{
    let r = match d {
        0 => "0",
        1 => "1",
        2 => "2",
        3 => "3",
        4 => "4",
        5 => "5",
        6 => "6",
        7 => "7",
        8 => "8",
        _ => "9",
    };
    proof {
        reveal_strlit("0");
        reveal_strlit("1");
        reveal_strlit("2");
        reveal_strlit("3");
        reveal_strlit("4");
        reveal_strlit("5");
        reveal_strlit("6");
        reveal_strlit("7");
        reveal_strlit("8");
        reveal_strlit("9");
        assert(r@ =~= seq![digit_char(d as nat)]);
    }
    r
}

/// The decimal numeral of `n` as an owned string.
pub fn u64_dec(n: u64) -> (s: String)
    ensures
        s@ == dec_of(n as nat),
    decreases n,
{
    if n < 10 {
        let s = digit_str(n).to_owned();
        proof {
            assert(s@ =~= dec_of(n as nat));
        }
        s
    } else {
        let mut s = u64_dec(n / 10);
        s.append(digit_str(n % 10));
        proof {
            assert(s@ =~= dec_of(n as nat));
        }
        s
    }
}

/// The decimal numeral of `n` as an owned string, signed.
pub fn i64_dec(n: i64) -> (s: String)
    ensures
        s@ == int_dec_of(n as int),
{
    if n >= 0 {
        u64_dec(n as u64)
    } else {
        let magnitude: u64 = if n == i64::MIN {
            9223372036854775808u64
        } else {
            (-n) as u64
        };
        let mut s = "-".to_owned();
        let digits = u64_dec(magnitude);
        s.append(digits.as_str());
        proof {
            reveal_strlit("-");
            assert(s@ =~= int_dec_of(n as int));
        }
        s
    }
}

/// The wire form of a boolean, as a string slice.
pub fn bool_str(b: bool) -> (r: &'static str)
    ensures
        r@ == bool_wire(b),
{
    if b {
        "true"
    } else {
        "false"
    }
}

/// The decimal text of a rating given in hundredths.
pub fn rating_str(centi: u16) -> (s: String)
    ensures
        s@ == rating_wire(centi as nat),
{
    let mut s = u64_dec((centi / 100) as u64);
    if centi % 100 != 0 {
        s.append(".");
        s.append(digit_str(((centi / 10) % 10) as u64));
        if centi % 10 != 0 {
            s.append(digit_str((centi % 10) as u64));
        }
        proof {
            reveal_strlit(".");
            assert(s@ =~= rating_wire(centi as nat));
        }
    }
    s
}

/// What `str::to_lowercase` returns: a function of the input text alone.
pub uninterp spec fn lower_of(s: Seq<char>) -> Seq<char>;

/// Relies on `str::to_lowercase`: the result depends on the input text
/// alone, so equal inputs always lower to equal outputs.
#[verifier::external_body]
pub(crate) fn lowercase(s: &str) -> (r: String)
    ensures
        r@ == lower_of(s@),
{
    s.to_lowercase()
}

} // verus!
