//! Building strings character by character.

use vstd::prelude::*;

verus! {

/// Calls `String::push`.
///
/// Trusted: the character is appended to the end of the string, as the
/// standard library documents.
#[verifier::external_body]
pub(crate) fn push_char(s: &mut String, c: char)
    ensures
        final(s)@ == old(s)@.push(c),
{
    s.push(c)
}

/// The string that holds the characters of `chars`.
pub fn string_of(chars: &Vec<char>) -> (s: String)
    ensures
        s@ == chars@,
{
    let mut s = String::new();
    let mut i: usize = 0;
    while i < chars.len()
        invariant
            0 <= i <= chars@.len(),
            s@ == chars@.take(i as int),
        decreases chars@.len() - i,
    {
        push_char(&mut s, chars[i]);
        i = i + 1;
    }
    s
}

/// The string of `count` times the character `c`; empty for a count below 1.
pub fn repeated(c: char, count: i32) -> (s: String)
    ensures
        s@ == Seq::new(
            if count > 0 {
                count as nat
            } else {
                0
            },
            |i: int| c,
        ),
{
    let mut s = String::new();
    let mut i: i32 = 0;
    while i < count
        invariant
            0 <= i,
            i == 0 || i <= count,
            s@ == Seq::new(i as nat, |k: int| c),
        decreases count - i,
    {
        push_char(&mut s, c);
        i = i + 1;
    }
    s
}

/// The digit that stands for `d`.
pub open spec fn digit(d: nat) -> char {
    if d == 0 {
        '0'
    } else if d == 1 {
        '1'
    } else if d == 2 {
        '2'
    } else if d == 3 {
        '3'
    } else if d == 4 {
        '4'
    } else if d == 5 {
        '5'
    } else if d == 6 {
        '6'
    } else if d == 7 {
        '7'
    } else if d == 8 {
        '8'
    } else {
        '9'
    }
}

/// The number `n` in decimal digits, without leading zeros.
pub open spec fn decimal(n: nat) -> Seq<char>
    decreases n,
{
    if n < 10 {
        seq![digit(n)]
    } else {
        decimal(n / 10).push(digit(n % 10))
    }
}

/// The number of decimal digits of `n`.
pub open spec fn decimal_len(n: nat) -> nat
    decreases n,
{
    if n < 10 {
        1
    } else {
        decimal_len(n / 10) + 1
    }
}

/// A number has as many digits as `decimal_len` says, and never more than 20
/// where it is a value of `usize`.
pub proof fn lemma_decimal_len(n: nat)
    ensures
        decimal(n).len() == decimal_len(n),
        decimal_len(n) >= 1,
        n <= 0xffff_ffff_ffff_ffff ==> decimal_len(n) <= 20,
    decreases n,
{
    if n >= 10 {
        lemma_decimal_len(n / 10);
        if n <= 0xffff_ffff_ffff_ffff {
            reveal_with_fuel(decimal_len, 21);
        }
    }
}

/// The digit that stands for `d`.
fn digit_char(d: usize) -> (c: char)
    requires
        d < 10,
    ensures
        c == digit(d as nat),
{
    if d == 0 {
        '0'
    } else if d == 1 {
        '1'
    } else if d == 2 {
        '2'
    } else if d == 3 {
        '3'
    } else if d == 4 {
        '4'
    } else if d == 5 {
        '5'
    } else if d == 6 {
        '6'
    } else if d == 7 {
        '7'
    } else if d == 8 {
        '8'
    } else {
        '9'
    }
}

/// Appends the decimal digits of `n` to `s`.
pub fn push_decimal(s: &mut String, n: usize)
    ensures
        final(s)@ == old(s)@ + decimal(n as nat),
    decreases n,
{
    if n >= 10 {
        push_decimal(s, n / 10);
    }
    push_char(s, digit_char(n % 10));
}

/// The number of decimal digits of `n`.
pub fn decimal_digits(n: usize) -> (count: usize)
    ensures
        count == decimal_len(n as nat),
        1 <= count <= 20,
{
    proof {
        lemma_decimal_len(n as nat);
    }
    let mut count: usize = 1;
    let mut rest: usize = n;
    while rest >= 10
        invariant
            1 <= count,
            decimal_len(n as nat) <= 20,
            count + decimal_len(rest as nat) == decimal_len(n as nat) + 1,
        decreases rest,
    {
        rest = rest / 10;
        count = count + 1;
    }
    count
}

} // verus!
