//! Numbers written out in decimal.

use vstd::prelude::*;

verus! {

/// ASCII `0`; the other digits follow it.
pub const DIGIT_ZERO: u8 = 48;

/// ASCII `-`.
pub const MINUS_SIGN: u8 = 45;

/// The decimal digits of a number, in ASCII, without leading zeros.
pub open spec fn decimal_digits(n: nat) -> Seq<u8>
    decreases n,
{
    if n < 10 {
        seq![(DIGIT_ZERO + n) as u8]
    } else {
        decimal_digits(n / 10).push((DIGIT_ZERO + n % 10) as u8)
    }
}

/// A number in decimal, in ASCII, with a minus sign in front where it is negative.
pub open spec fn decimal(n: int) -> Seq<u8> {
    if n < 0 {
        seq![MINUS_SIGN] + decimal_digits((-n) as nat)
    } else {
        decimal_digits(n as nat)
    }
}

/// Appends the decimal digits of `n`.
pub fn push_digits(buf: &mut Vec<u8>, n: u64)
    ensures
        final(buf)@ == old(buf)@ + decimal_digits(n as nat),
    decreases n,
{
    if n >= 10 {
        push_digits(buf, n / 10);
    }
    let digit: u64 = n % 10;
    buf.push(DIGIT_ZERO + digit as u8);
    assert(buf@ =~= old(buf)@ + decimal_digits(n as nat));
}

/// Appends `n` in decimal.
pub fn push_decimal(buf: &mut Vec<u8>, n: i64)
    ensures
        final(buf)@ == old(buf)@ + decimal(n as int),
{
    if n < 0 {
        buf.push(MINUS_SIGN);
        let magnitude: u64 = if n == i64::MIN {
            0x8000_0000_0000_0000
        } else {
            (-n) as u64
        };
        push_digits(buf, magnitude);
        assert(buf@ =~= old(buf)@ + decimal(n as int));
    } else {
        push_digits(buf, n as u64);
    }
}

} // verus!
