//! Decimal numbers for the wire format.
//!
//! Sampling parameters such as `temperature` travel as JSON numbers with a
//! fixed number of fraction digits. They are kept as integer mantissas here,
//! so that rendering them is plain integer arithmetic.

use vstd::prelude::*;

verus! {

/// A decimal number `(-1)^negative * mantissa / 10^scale`.
///
/// `scale` is the number of fraction digits that the rendering shows; a
/// `scale` of zero renders as a plain integer. `Decimal { negative: false,
/// mantissa: 5, scale: 1 }` renders as `0.5`.
#[derive(Clone, Copy, Debug, PartialEq, Eq, Structural)]
pub struct Decimal {
    pub negative: bool,
    pub mantissa: u64,
    pub scale: u32,
}

impl Decimal {
    /// Build a decimal from its parts.
    pub fn new(negative: bool, mantissa: u64, scale: u32) -> (d: Decimal)
        ensures
            d == (Decimal { negative, mantissa, scale }),
    {
        Decimal { negative, mantissa, scale }
    }
}

/// The character for one decimal digit.
pub open spec fn spec_digit_char(d: nat) -> char {
    if d == 0 {
        '0'
    } else if d == 1 {
        '1'
    } else if d == 2 {
        '2'
    } else if d == 3 {
        '3'
    } else if d == 4 {
        '4'
    } else if d == 5 {
        '5'
    } else if d == 6 {
        '6'
    } else if d == 7 {
        '7'
    } else if d == 8 {
        '8'
    } else {
        '9'
    }
}

/// The usual decimal rendering of a natural number, without sign or padding.
pub open spec fn spec_u64_digits(n: nat) -> Seq<char>
    decreases n,
{
    if n < 10 {
        seq![spec_digit_char(n)]
    } else {
        spec_u64_digits(n / 10) + seq![spec_digit_char(n % 10)]
    }
}

/// The rendering of `n / 10^scale` with exactly `scale` fraction digits:
/// the last `scale` digits of `n` (zero-padded) go behind a dot, the rest
/// in front of it. With `scale == 0` this is the plain integer rendering.
pub open spec fn spec_dec_digits(n: nat, scale: nat) -> Seq<char>
    decreases scale,
{
    if scale == 0 {
        spec_u64_digits(n)
    } else if scale == 1 {
        spec_u64_digits(n / 10) + seq!['.', spec_digit_char(n % 10)]
    } else {
        spec_dec_digits(n / 10, (scale - 1) as nat) + seq![spec_digit_char(n % 10)]
    }
}

/// The full rendering of a `Decimal`, sign included.
pub open spec fn spec_decimal_chars(d: Decimal) -> Seq<char> {
    if d.negative {
        seq!['-'] + spec_dec_digits(d.mantissa as nat, d.scale as nat)
    } else {
        spec_dec_digits(d.mantissa as nat, d.scale as nat)
    }
}

fn digit_char(d: u64) -> (c: char)
    requires
        d < 10,
    ensures
        c == spec_digit_char(d as nat),
{
    match d {
        0 => '0',
        1 => '1',
        2 => '2',
        3 => '3',
        4 => '4',
        5 => '5',
        6 => '6',
        7 => '7',
        8 => '8',
        _ => '9',
    }
}

/// Append the decimal digits of `n` to `buf`.
pub(crate) fn push_u64_digits(buf: &mut Vec<char>, n: u64)
    ensures
        final(buf)@ == old(buf)@ + spec_u64_digits(n as nat),
    decreases n,
{
    if n >= 10 {
        push_u64_digits(buf, n / 10);
    }
    let d = digit_char(n % 10);
    buf.push(d);
    proof {
        if n < 10 {
            assert(buf@ =~= old(buf)@ + spec_u64_digits(n as nat));
        } else {
            assert(buf@ =~= old(buf)@ + (spec_u64_digits(n as nat / 10) + seq![
                spec_digit_char(n as nat % 10),
            ]));
        }
    }
}

fn push_dec_digits(buf: &mut Vec<char>, n: u64, scale: u32)
    ensures
        final(buf)@ == old(buf)@ + spec_dec_digits(n as nat, scale as nat),
    decreases scale,
{
    if scale == 0 {
        push_u64_digits(buf, n);
    } else if scale == 1 {
        push_u64_digits(buf, n / 10);
        buf.push('.');
        let d = digit_char(n % 10);
        buf.push(d);
        proof {
            assert(buf@ =~= old(buf)@ + (spec_u64_digits(n as nat / 10) + seq![
                '.',
                spec_digit_char(n as nat % 10),
            ]));
        }
    } else {
        push_dec_digits(buf, n / 10, scale - 1);
        let d = digit_char(n % 10);
        buf.push(d);
        proof {
            assert(buf@ =~= old(buf)@ + (spec_dec_digits(
                n as nat / 10,
                (scale - 1) as nat,
            ) + seq![spec_digit_char(n as nat % 10)]));
        }
    }
}

/// Append the rendering of `d` to `buf`.
pub(crate) fn push_decimal(buf: &mut Vec<char>, d: Decimal)
    ensures
        final(buf)@ == old(buf)@ + spec_decimal_chars(d),
{
    if d.negative {
        buf.push('-');
    }
    push_dec_digits(buf, d.mantissa, d.scale);
    proof {
        if d.negative {
            assert(buf@ =~= old(buf)@ + (seq!['-'] + spec_dec_digits(
                d.mantissa as nat,
                d.scale as nat,
            )));
        }
    }
}

} // verus!
