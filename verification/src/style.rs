//! Rendering a displaced position as the style text written to a sprite.
//!
//! The only externally observable output of the tracking component is a
//! style attribute of the form `left:{x}px;top:{y}px;`. This module produces
//! those bytes (plain ASCII) from a position; the UI layer only turns them
//! into a string and hands them to the DOM.

use crate::geometry::Point;
use vstd::prelude::*;

verus! {

/// The ASCII digit for a decimal value.
pub open spec fn digit_byte(d: int) -> u8 {
    (48 + d) as u8
}

/// The decimal digits of a non-negative number, most significant first;
/// zero renders as no digits at all (its one digit comes from [`dec_rep`]).
pub open spec fn dec_digits(n: int) -> Seq<u8>
    decreases n,
{
    if n <= 0 {
        Seq::empty()
    } else {
        dec_digits(n / 10).push(digit_byte(n % 10))
    }
}

/// The decimal rendering of an integer: `0` as the single zero digit, a
/// negative number as a minus sign before the digits of its magnitude.
pub open spec fn dec_rep(n: int) -> Seq<u8> {
    if n == 0 {
        seq![48u8]
    } else if n > 0 {
        dec_digits(n)
    } else {
        seq![45u8] + dec_digits(-n)
    }
}

/// The value a sequence of ASCII digits denotes, most significant first.
pub open spec fn parse_digits(s: Seq<u8>) -> int
    decreases s.len(),
{
    if s.len() == 0 {
        0
    } else {
        parse_digits(s.drop_last()) * 10 + (s.last() - 48)
    }
}

/// The decimal digits of a non-negative number denote that number, consist
/// only of ASCII digits, and carry no leading zero.
pub proof fn lemma_dec_digits_parse(n: int)
    requires
        n >= 0,
    ensures
        parse_digits(dec_digits(n)) == n,
        forall|i: int|
            0 <= i < dec_digits(n).len() ==> 48 <= #[trigger] dec_digits(n)[i] <= 57,
        n > 0 ==> dec_digits(n).len() > 0 && dec_digits(n)[0] != 48,
    decreases n,
{
    if n <= 0 {
    } else {
        lemma_dec_digits_parse(n / 10);
        let prefix = dec_digits(n / 10);
        let whole = dec_digits(n);
        assert(whole =~= prefix.push(digit_byte(n % 10)));
        assert(whole.drop_last() =~= prefix);
        assert(whole.last() == digit_byte(n % 10));
        assert(0 <= n % 10 <= 9);
        assert(parse_digits(whole) == parse_digits(prefix) * 10 + n % 10);
        assert(parse_digits(prefix) * 10 + n % 10 == n);
        if n < 10 {
            assert(whole[0] == digit_byte(n % 10));
            assert(n % 10 == n);
        } else {
            assert(n / 10 > 0);
            assert(whole[0] == prefix[0]);
        }
    }
}

/// The style text for a sprite displaced to `(x, y)`:
/// `left:{x}px;top:{y}px;`, as ASCII bytes.
pub open spec fn style_spec(x: int, y: int) -> Seq<u8> {
    seq![108u8, 101u8, 102u8, 116u8, 58u8] + dec_rep(x) + seq![112u8, 120u8, 59u8, 116u8, 111u8, 112u8, 58u8]
        + dec_rep(y) + seq![112u8, 120u8, 59u8]
}

/// Append the decimal digits of `n`, most significant first.
fn push_digits(v: &mut Vec<u8>, n: u64)
    ensures
        final(v)@ == old(v)@ + dec_digits(n as int),
    decreases n,
{
    if n == 0 {
        assert(final(v)@ =~= old(v)@ + dec_digits(0));
    } else {
        push_digits(v, n / 10);
        let d: u8 = (n % 10) as u8;
        v.push(48 + d);
        assert(final(v)@ =~= old(v)@ + dec_digits(n as int));
    }
}

/// Append the decimal rendering of `n`.
fn push_decimal(v: &mut Vec<u8>, n: i64)
    requires
        n > i64::MIN,
    ensures
        final(v)@ == old(v)@ + dec_rep(n as int),
{
    if n == 0 {
        v.push(48);
        assert(final(v)@ =~= old(v)@ + dec_rep(0));
    } else if n > 0 {
        push_digits(v, n as u64);
    } else {
        v.push(45);
        let m: i64 = -n;
        push_digits(v, m as u64);
        assert(final(v)@ =~= old(v)@ + dec_rep(n as int));
    }
}

/// Produce the style bytes `left:{x}px;top:{y}px;` for a displaced position.
pub fn style_bytes(pos: Point) -> (v: Vec<u8>)
    requires
        pos.wf(),
    ensures
        v@ == style_spec(pos.x as int, pos.y as int),
{
    let mut v: Vec<u8> = Vec::new();
    v.push(108u8);
    v.push(101u8);
    v.push(102u8);
    v.push(116u8);
    v.push(58u8);
    push_decimal(&mut v, pos.x);
    v.push(112u8);
    v.push(120u8);
    v.push(59u8);
    v.push(116u8);
    v.push(111u8);
    v.push(112u8);
    v.push(58u8);
    push_decimal(&mut v, pos.y);
    v.push(112u8);
    v.push(120u8);
    v.push(59u8);
    assert(v@ =~= style_spec(pos.x as int, pos.y as int));
    v
}

} // verus!
