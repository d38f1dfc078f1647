//! Decimal numerals: reading a port number and writing an integer.

use vstd::prelude::*;
use crate::text::{chars_of, push_char};

verus! {

/// Whether `c` is one of the ten ASCII digits.
pub open spec fn is_digit(c: char) -> bool {
    '0' <= c && c <= '9'
}

/// The number that the digit `c` stands for.
pub open spec fn digit_value(c: char) -> int {
    c as int - '0' as int
}

/// The character for a number below ten.
pub open spec fn digit_char(d: int) -> char {
    if d == 0 {
        '0'
    } else if d == 1 {
        '1'
    } else if d == 2 {
        '2'
    } else if d == 3 {
        '3'
    } else if d == 4 {
        '4'
    } else if d == 5 {
        '5'
    } else if d == 6 {
        '6'
    } else if d == 7 {
        '7'
    } else if d == 8 {
        '8'
    } else {
        '9'
    }
}

/// Whether every character of `s` is a digit.
pub open spec fn all_digits(s: Seq<char>) -> bool {
    forall|i: int| 0 <= i < s.len() ==> is_digit(#[trigger] s[i])
}

/// The number that a string of digits denotes in base ten.
pub open spec fn digits_value(s: Seq<char>) -> int
    decreases s.len(),
{
    if s.len() == 0 {
        0
    } else {
        digits_value(s.drop_last()) * 10 + digit_value(s.last())
    }
}

/// A numeral without its optional leading plus sign.
pub open spec fn unsigned_part(s: Seq<char>) -> Seq<char> {
    if s.len() > 0 && s[0] == '+' {
        s.drop_first()
    } else {
        s
    }
}

/// The number that a port numeral denotes: an optional `+`, then one or more
/// digits whose value is at most 65535. Anything else is no port numeral.
/// Whether the number may serve as a port is another matter: 0 may not.
pub open spec fn port_number(s: Seq<char>) -> Option<u16> {
    let body = unsigned_part(s);
    if body.len() > 0 && all_digits(body) && digits_value(body) <= 65535 {
        Some(digits_value(body) as u16)
    } else {
        None
    }
}

/// The shortest decimal numeral of `n`.
pub open spec fn decimal(n: nat) -> Seq<char>
    decreases n,
{
    if n < 10 {
        seq![digit_char(n as int)]
    } else {
        decimal(n / 10).push(digit_char((n % 10) as int))
    }
}

/// The decimal numeral of `n`, padded with zeros on the left to three places.
pub open spec fn decimal3(n: nat) -> Seq<char> {
    if n < 10 {
        seq!['0', '0'] + decimal(n)
    } else if n < 100 {
        seq!['0'] + decimal(n)
    } else {
        decimal(n)
    }
}

/// The number that a string denotes as a port numeral, if it is one.
pub fn parse_port_number(text: &str) -> (r: Option<u16>)
    ensures
        r == port_number(text@),
{
    let chars = chars_of(text);
    assert(chars@.skip(0) =~= chars@);
    port_at(&chars, 0)
}

/// The number that the characters `chars[from..]` denote as a port numeral,
/// if they are one.
pub(crate) fn port_at(chars: &Vec<char>, from: usize) -> (r: Option<u16>)
    requires
        from <= chars.len(),
    ensures
        r == port_number(chars@.skip(from as int)),
{
    let ghost s = chars@.skip(from as int);
    let mut start: usize = from;
    if start < chars.len() && chars[start] == '+' {
        start += 1;
    }
    let ghost body = unsigned_part(s);
    assert(body =~= chars@.skip(start as int));
    if start == chars.len() {
        return None;
    }
    let mut value: u32 = 0;
    let mut i: usize = start;
    while i < chars.len()
        invariant
            start <= i <= chars.len(),
            from <= chars.len(),
            body == chars@.skip(start as int),
            body == unsigned_part(chars@.skip(from as int)),
            all_digits(body.take(i - start)),
            value <= 65536,
            value == if digits_value(body.take(i - start)) < 65536 {
                digits_value(body.take(i - start))
            } else {
                65536
            },
            digits_value(body.take(i - start)) >= 0,
        decreases chars.len() - i,
    {
        let c = chars[i];
        assert(c == body[i - start]);
        if !(c >= '0' && c <= '9') {
            assert(!is_digit(body[i - start]));
            return None;
        }
        let d: u32 = (c as u32) - ('0' as u32);
        let ghost before = body.take(i - start);
        let ghost after = body.take(i - start + 1);
        assert(after.drop_last() =~= before);
        assert(after.last() == c);
        assert forall|k: int| 0 <= k < after.len() implies is_digit(#[trigger] after[k]) by {
            if k < after.len() - 1 {
                assert(after[k] == before[k]);
            }
        }
        let next: u32 = value * 10 + d;
        value = if next > 65536 { 65536 } else { next };
        i += 1;
    }
    assert(body.take(i - start) =~= body);
    if value <= 65535 {
        Some(value as u16)
    } else {
        None
    }
}

/// The character for a number below ten.
fn digit_of(d: u64) -> (c: char)
    requires
        d < 10,
    ensures
        c == digit_char(d as int),
{
    if d == 0 {
        '0'
    } else if d == 1 {
        '1'
    } else if d == 2 {
        '2'
    } else if d == 3 {
        '3'
    } else if d == 4 {
        '4'
    } else if d == 5 {
        '5'
    } else if d == 6 {
        '6'
    } else if d == 7 {
        '7'
    } else if d == 8 {
        '8'
    } else {
        '9'
    }
}

/// Appends the decimal numeral of `n` to `out`.
pub fn push_decimal(out: &mut String, n: u64)
    ensures
        final(out)@ == old(out)@ + decimal(n as nat),
    decreases n,
{
    if n >= 10 {
        push_decimal(out, n / 10);
    }
    push_char(out, digit_of(n % 10));
}

/// Appends the decimal numeral of `n` to `out`, padded to three places.
pub fn push_decimal3(out: &mut String, n: u64)
    ensures
        final(out)@ == old(out)@ + decimal3(n as nat),
{
    if n < 10 {
        push_char(out, '0');
        push_char(out, '0');
    } else if n < 100 {
        push_char(out, '0');
    }
    push_decimal(out, n);
}

/// A numeral of `decimal` is made of digits and denotes the number it was
/// written for.
pub proof fn lemma_decimal(n: nat)
    ensures
        decimal(n).len() > 0,
        all_digits(decimal(n)),
        digits_value(decimal(n)) == n,
    decreases n,
{
    if n < 10 {
        let s = decimal(n);
        assert(s.drop_last() =~= Seq::<char>::empty());
        assert(digits_value(s.drop_last()) == 0);
    } else {
        lemma_decimal(n / 10);
        let s = decimal(n);
        assert(s.drop_last() =~= decimal(n / 10));
        assert forall|i: int| 0 <= i < s.len() implies is_digit(#[trigger] s[i]) by {
            if i < s.len() - 1 {
                assert(s[i] == decimal(n / 10)[i]);
            }
        }
    }
}

/// Reading the numeral of a port gives the port back.
pub proof fn law_port_numeral(p: u16)
    ensures
        port_number(decimal(p as nat)) == Some(p),
{
    lemma_decimal(p as nat);
}

} // verus!
