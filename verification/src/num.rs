//! Fixed-point arithmetic and decimal rendering.
//!
//! Physical quantities are carried as signed integers counting thousandths
//! of their base unit (for example millikelvin). Conversions between units
//! are exact rational computations followed by one rounding step, and the
//! rendered text is specified character by character.

use vstd::prelude::*;
use vstd::string::*;

verus! {

/// Nearest integer to `a / b` for `b > 0`, with halves rounded away from zero.
pub open spec fn round_away(a: int, b: int) -> int
    recommends
        b > 0,
{
    if a >= 0 {
        (2 * a + b) / (2 * b)
    } else {
        -((2 * (-a) + b) / (2 * b))
    }
}

/// Bound on the numerators handed to `div_round_away`, chosen so that
/// `2 * a + b` can never overflow an `i64`.
pub open spec fn round_arg_ok(a: int, b: int) -> bool {
    0 < b <= 0x1000_0000_0000_0000 && -0x1000_0000_0000_0000 <= a <= 0x1000_0000_0000_0000
}

/// `a / b` rounded to the nearest integer, halves away from zero.
pub fn div_round_away(a: i64, b: i64) -> (r: i64)
    requires
        round_arg_ok(a as int, b as int),
    ensures
        r == round_away(a as int, b as int),
{
    if a >= 0 {
        (2 * a + b) / (2 * b)
    } else {
        -((2 * (-a) + b) / (2 * b))
    }
}

/// The distance from `round_away(a, b) * b` back to `a` is at most half of `b`.
pub proof fn lemma_round_away_close(a: int, b: int)
    requires
        b > 0,
    ensures
        2 * (round_away(a, b) * b - a) <= b,
        2 * (a - round_away(a, b) * b) <= b,
{
    if a >= 0 {
        let x = 2 * a + b;
        let d = 2 * b;
        let q = x / d;
        let r = x % d;
        vstd::arithmetic::div_mod::lemma_fundamental_div_mod(x, d);
        vstd::arithmetic::div_mod::lemma_mod_bound(x, d);
        assert(d * q == 2 * (q * b)) by (nonlinear_arith)
            requires
                d == 2 * b,
        ;
        assert(2 * (q * b - a) == b - r);
    } else {
        let x = 2 * (-a) + b;
        let d = 2 * b;
        let q = x / d;
        let r = x % d;
        vstd::arithmetic::div_mod::lemma_fundamental_div_mod(x, d);
        vstd::arithmetic::div_mod::lemma_mod_bound(x, d);
        assert(d * q == 2 * (q * b)) by (nonlinear_arith)
            requires
                d == 2 * b,
        ;
        assert((-q) * b == -(q * b)) by (nonlinear_arith);
        assert(2 * ((-q) * b - a) == r - b);
    }
}

/// Rounding a value that is already a whole multiple of `b` changes nothing.
pub proof fn lemma_round_away_exact(k: int, b: int)
    requires
        b > 0,
    ensures
        round_away(k * b, b) == k,
{
    if k >= 0 {
        assert(k * b >= 0) by (nonlinear_arith)
            requires
                k >= 0 && b > 0,
        ;
        assert(2 * (k * b) + b == k * (2 * b) + b) by (nonlinear_arith);
        vstd::arithmetic::div_mod::lemma_fundamental_div_mod_converse_div(
            2 * (k * b) + b,
            2 * b,
            k,
            b,
        );
    } else {
        assert(k * b < 0) by (nonlinear_arith)
            requires
                k < 0 && b > 0,
        ;
        assert(2 * (-(k * b)) + b == (-k) * (2 * b) + b) by (nonlinear_arith);
        vstd::arithmetic::div_mod::lemma_fundamental_div_mod_converse_div(
            2 * (-(k * b)) + b,
            2 * b,
            -k,
            b,
        );
    }
}

/// The character for one decimal digit.
pub open spec fn digit_char(d: int) -> char
    recommends
        0 <= d <= 9,
{
    if d == 0 {
        '0'
    } else if d == 1 {
        '1'
    } else if d == 2 {
        '2'
    } else if d == 3 {
        '3'
    } else if d == 4 {
        '4'
    } else if d == 5 {
        '5'
    } else if d == 6 {
        '6'
    } else if d == 7 {
        '7'
    } else if d == 8 {
        '8'
    } else {
        '9'
    }
}

/// Decimal digits of `n`, most significant first, no leading zeros.
pub open spec fn dec_str(n: nat) -> Seq<char>
    decreases n,
{
    if n < 10 {
        seq![digit_char(n as int)]
    } else {
        dec_str(n / 10) + seq![digit_char((n % 10) as int)]
    }
}

/// Decimal text of `i`, with a leading `-` for negative values.
pub open spec fn int_str(i: int) -> Seq<char> {
    if i < 0 {
        seq!['-'] + dec_str((-i) as nat)
    } else {
        dec_str(i as nat)
    }
}

/// Exactly `d` decimal digits of `n`, zero-padded on the left.
pub open spec fn frac_digits(n: nat, d: nat) -> Seq<char>
    decreases d,
{
    if d == 0 {
        Seq::empty()
    } else {
        frac_digits(n / 10, (d - 1) as nat) + seq![digit_char((n % 10) as int)]
    }
}

/// Text of a value counted in tenths, rendered with one decimal place.
pub open spec fn tenths_str(t: int) -> Seq<char> {
    let a = if t < 0 {
        (-t) as nat
    } else {
        t as nat
    };
    let sign: Seq<char> = if t < 0 {
        seq!['-']
    } else {
        Seq::empty()
    };
    sign + dec_str(a / 10) + seq!['.'] + frac_digits(a % 10, 1)
}

/// Text of a value counted in thousandths, rendered with three decimal places.
pub open spec fn thousandths_str(t: int) -> Seq<char> {
    let a = if t < 0 {
        (-t) as nat
    } else {
        t as nat
    };
    let sign: Seq<char> = if t < 0 {
        seq!['-']
    } else {
        Seq::empty()
    };
    sign + dec_str(a / 1000) + seq!['.'] + frac_digits(a % 1000, 3)
}

/// The one-character string for a digit.
fn digit_text(d: u64) -> (r: &'static str)
    requires
        d <= 9,
    ensures
        r@ =~= seq![digit_char(d as int)],
{
    proof {
        reveal_strlit("0");
        reveal_strlit("1");
        reveal_strlit("2");
        reveal_strlit("3");
        reveal_strlit("4");
        reveal_strlit("5");
        reveal_strlit("6");
        reveal_strlit("7");
        reveal_strlit("8");
        reveal_strlit("9");
    }
    match d {
        0 => "0",
        1 => "1",
        2 => "2",
        3 => "3",
        4 => "4",
        5 => "5",
        6 => "6",
        7 => "7",
        8 => "8",
        _ => "9",
    }
}

/// Appends the decimal digits of `n` to `out`.
fn push_digits(n: u64, out: &mut String)
    ensures
        final (out)@ == old(out)@ + dec_str(n as nat),
    decreases n,
{
    if n >= 10 {
        push_digits(n / 10, out);
    }
    out.append(digit_text(n % 10));
}

/// Appends exactly `d` zero-padded low decimal digits of `n` to `out`.
fn push_frac_digits(n: u64, d: u64, out: &mut String)
    ensures
        final (out)@ == old(out)@ + frac_digits(n as nat, d as nat),
    decreases d,
{
    if d > 0 {
        push_frac_digits(n / 10, d - 1, out);
        out.append(digit_text(n % 10));
    }
}

/// Renders `i` as decimal text.
pub fn int_string(i: i64) -> (r: String)
    requires
        i != i64::MIN,
    ensures
        r@ == int_str(i as int),
{
    let mut out = String::new();
    if i < 0 {
        proof {
            reveal_strlit("-");
        }
        out.append("-");
        assert(out@ =~= seq!['-']);
        push_digits((-i) as u64, &mut out);
    } else {
        push_digits(i as u64, &mut out);
    }
    out
}

/// Renders a count of tenths with one decimal place, as `format!("{:.1}", _)`
/// renders the corresponding fraction.
pub fn tenths_string(t: i64) -> (r: String)
    requires
        t != i64::MIN,
    ensures
        r@ == tenths_str(t as int),
{
    let mut out = String::new();
    let a: u64 = if t < 0 {
        proof {
            reveal_strlit("-");
        }
        out.append("-");
        assert(out@ =~= seq!['-']);
        (-t) as u64
    } else {
        t as u64
    };
    push_digits(a / 10, &mut out);
    proof {
        reveal_strlit(".");
    }
    let ghost mid = out@;
    out.append(".");
    assert(out@ =~= mid + seq!['.']);
    push_frac_digits(a % 10, 1, &mut out);
    out
}

/// Renders a count of thousandths with three decimal places, as
/// `format!("{:.3}", _)` renders the corresponding fraction.
pub fn thousandths_string(t: i64) -> (r: String)
    requires
        t != i64::MIN,
    ensures
        r@ == thousandths_str(t as int),
{
    let mut out = String::new();
    let a: u64 = if t < 0 {
        proof {
            reveal_strlit("-");
        }
        out.append("-");
        assert(out@ =~= seq!['-']);
        (-t) as u64
    } else {
        t as u64
    };
    push_digits(a / 1000, &mut out);
    proof {
        reveal_strlit(".");
    }
    let ghost mid = out@;
    out.append(".");
    assert(out@ =~= mid + seq!['.']);
    push_frac_digits(a % 1000, 3, &mut out);
    out
}

} // verus!
