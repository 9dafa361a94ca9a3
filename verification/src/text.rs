//! Decimal rendering of numbers into strings, with optional zero padding.

use vstd::prelude::*;
use vstd::string::*;

verus! {

/// `String::push`: appends one character to the end of the string.
pub assume_specification[ String::push ](s: &mut String, c: char)
    ensures
        final(s)@ == old(s)@.push(c),
;

/// The character of a decimal digit.
pub open spec fn digit_char(d: int) -> char {
    if d == 0 {
        '0'
    } else if d == 1 {
        '1'
    } else if d == 2 {
        '2'
    } else if d == 3 {
        '3'
    } else if d == 4 {
        '4'
    } else if d == 5 {
        '5'
    } else if d == 6 {
        '6'
    } else if d == 7 {
        '7'
    } else if d == 8 {
        '8'
    } else {
        '9'
    }
}

/// The decimal digits of `n`, most significant first, without leading zeros.
pub open spec fn decimal(n: nat) -> Seq<char>
    decreases n,
{
    if n < 10 {
        seq![digit_char(n as int)]
    } else {
        decimal(n / 10).push(digit_char((n % 10) as int))
    }
}

/// `count` zeros.
pub open spec fn zeros(count: nat) -> Seq<char> {
    Seq::new(count, |i: int| '0')
}

/// The decimal digits of `n`, padded on the left with zeros to at least
/// `width` characters.
pub open spec fn zero_padded(n: nat, width: nat) -> Seq<char> {
    let digits = decimal(n);
    if digits.len() >= width {
        digits
    } else {
        zeros((width - digits.len()) as nat) + digits
    }
}

/// The decimal digits of a signed number: a minus sign before the digits of a
/// negative one.
pub open spec fn signed_decimal(n: int) -> Seq<char> {
    if n < 0 {
        seq!['-'] + decimal((-n) as nat)
    } else {
        decimal(n as nat)
    }
}

/// The character of the decimal digit `d`.
pub fn digit(d: u8) -> (c: char)
    requires
        d < 10,
    ensures
        c == digit_char(d as int),
{
    if d == 0 {
        '0'
    } else if d == 1 {
        '1'
    } else if d == 2 {
        '2'
    } else if d == 3 {
        '3'
    } else if d == 4 {
        '4'
    } else if d == 5 {
        '5'
    } else if d == 6 {
        '6'
    } else if d == 7 {
        '7'
    } else if d == 8 {
        '8'
    } else {
        '9'
    }
}

/// The number of decimal digits of `n`.
pub fn decimal_len(n: u32) -> (len: usize)
    ensures
        len == decimal(n as nat).len(),
        1 <= len <= 10,
    decreases n,
{
    if n < 10 {
        1
    } else {
        let rest: usize = decimal_len(n / 10);
        assert(rest <= 9) by {
            lemma_decimal_len_bound((n / 10) as nat);
        }
        rest + 1
    }
}

/// A number under 2^32 / 10 has at most nine digits.
proof fn lemma_decimal_len_bound(n: nat)
    requires
        n < 429496730,
    ensures
        decimal(n).len() <= 9,
{
    reveal_with_fuel(decimal, 10);
}

/// Appends the decimal digits of `n` to `s`.
pub fn push_decimal(s: &mut String, n: u32)
    ensures
        final(s)@ == old(s)@ + decimal(n as nat),
    decreases n,
{
    if n < 10 {
        s.push(digit(n as u8));
        assert(old(s)@.push(digit_char(n as int)) =~= old(s)@ + decimal(n as nat));
    } else {
        push_decimal(s, n / 10);
        s.push(digit((n % 10) as u8));
        assert((old(s)@ + decimal((n / 10) as nat)).push(digit_char((n % 10) as int)) =~= old(s)@
            + decimal(n as nat));
    }
}

/// Appends the decimal digits of `n` to `s`, padded on the left with zeros to
/// at least `width` characters.
pub fn push_zero_padded(s: &mut String, n: u32, width: usize)
    ensures
        final(s)@ == old(s)@ + zero_padded(n as nat, width as nat),
{
    let len: usize = decimal_len(n);
    let mut i: usize = len;
    while i < width
        invariant
            len == decimal(n as nat).len(),
            len <= i,
            len < width ==> i <= width,
            len >= width ==> i == len,
            s@ == old(s)@ + zeros((i - len) as nat),
        decreases width - i,
    {
        s.push('0');
        assert((old(s)@ + zeros((i - len) as nat)).push('0') =~= old(s)@ + zeros(
            (i + 1 - len) as nat,
        ));
        i = i + 1;
    }
    push_decimal(s, n);
    assert(zeros(0) + decimal(n as nat) =~= decimal(n as nat));
    assert(old(s)@ + zeros(0) =~= old(s)@);
    assert((old(s)@ + zeros((i - len) as nat)) + decimal(n as nat) =~= old(s)@ + (zeros(
        (i - len) as nat,
    ) + decimal(n as nat)));
    assert(s@ =~= old(s)@ + zero_padded(n as nat, width as nat));
}

/// The decimal rendering of `n`.
pub fn decimal_string(n: u32) -> (r: String)
    ensures
        r@ == decimal(n as nat),
{
    let mut s = String::new();
    push_decimal(&mut s, n);
    assert(Seq::<char>::empty() + decimal(n as nat) =~= decimal(n as nat));
    s
}

/// The decimal rendering of `n`, zero-padded to `width` characters.
pub fn zero_padded_string(n: u32, width: usize) -> (r: String)
    ensures
        r@ == zero_padded(n as nat, width as nat),
{
    let mut s = String::new();
    push_zero_padded(&mut s, n, width);
    assert(Seq::<char>::empty() + zero_padded(n as nat, width as nat) =~= zero_padded(
        n as nat,
        width as nat,
    ));
    s
}

} // verus!
