//! Plain-text rendering of small numbers.
//!
//! The formula types render themselves as text ("♭9", "C#4", a
//! zero-padded bit pattern), so this module gives the crate verified
//! decimal and binary renderings of machine integers, each pinned to a
//! spec-level character sequence.

use vstd::prelude::*;
use vstd::string::StringExecFns;

verus! {

/// The character of a single decimal or binary digit value; digit values
/// of 10 and above, which no renderer here produces, fall back to '0'.
pub open spec fn spec_digit_char(d: int) -> char {
    if d == 1 {
        '1'
    } else if d == 2 {
        '2'
    } else if d == 3 {
        '3'
    } else if d == 4 {
        '4'
    } else if d == 5 {
        '5'
    } else if d == 6 {
        '6'
    } else if d == 7 {
        '7'
    } else if d == 8 {
        '8'
    } else if d == 9 {
        '9'
    } else {
        '0'
    }
}

/// The decimal rendering of a non-negative number, most significant digit
/// first, without leading zeros (except for the number 0 itself).
pub open spec fn spec_decimal(n: int) -> Seq<char>
    decreases n,
{
    if n < 10 {
        seq![spec_digit_char(n)]
    } else {
        spec_decimal(n / 10) + seq![spec_digit_char(n % 10)]
    }
}

/// The decimal rendering of a signed number: a minus sign before the
/// magnitude when it is negative.
pub open spec fn spec_signed_decimal(n: int) -> Seq<char> {
    if n < 0 {
        seq!['-'] + spec_decimal(-n)
    } else {
        spec_decimal(n)
    }
}

/// The binary rendering of a non-negative number, most significant digit
/// first, without leading zeros (except for the number 0 itself).
pub open spec fn spec_binary(n: int) -> Seq<char>
    decreases n,
{
    if n < 2 {
        seq![spec_digit_char(n)]
    } else {
        spec_binary(n / 2) + seq![spec_digit_char(n % 2)]
    }
}

/// A digit sequence left-padded with zeros up to `width` characters; one
/// already that long stays as it is.
pub open spec fn spec_zero_padded(digits: Seq<char>, width: int) -> Seq<char> {
    if digits.len() >= width {
        digits
    } else {
        Seq::new((width - digits.len()) as nat, |i: int| '0') + digits
    }
}

/// The single-character string of one digit value below ten.
fn digit_str(d: u8) -> (r: &'static str)
    requires
        d < 10,
    ensures
        r@ == seq![spec_digit_char(d as int)],
{
    proof {
        reveal_strlit("0");
        reveal_strlit("1");
        reveal_strlit("2");
        reveal_strlit("3");
        reveal_strlit("4");
        reveal_strlit("5");
        reveal_strlit("6");
        reveal_strlit("7");
        reveal_strlit("8");
        reveal_strlit("9");
    }
    match d {
        0 => "0",
        1 => "1",
        2 => "2",
        3 => "3",
        4 => "4",
        5 => "5",
        6 => "6",
        7 => "7",
        8 => "8",
        _ => "9",
    }
}

/// Renders a number in decimal, most significant digit first.
pub fn decimal_string(n: u16) -> (r: String)
    ensures
        r@ == spec_decimal(n as int),
    decreases n,
{
    if n < 10 {
        digit_str(n as u8).to_owned()
    } else {
        let mut prefix = decimal_string(n / 10);
        prefix.append(digit_str((n % 10) as u8));
        prefix
    }
}

/// Renders a signed number in decimal, with a minus sign when negative.
pub fn signed_decimal_string(n: i16) -> (r: String)
    requires
        n > i16::MIN,
    ensures
        r@ == spec_signed_decimal(n as int),
{
    if n < 0 {
        proof {
            reveal_strlit("-");
        }
        let mut prefix = "-".to_owned();
        let magnitude = decimal_string((-n) as u16);
        prefix.append(magnitude.as_str());
        prefix
    } else {
        decimal_string(n as u16)
    }
}

/// Renders a number in binary, most significant digit first.
pub fn binary_string(n: u32) -> (r: String)
    ensures
        r@ == spec_binary(n as int),
    decreases n,
{
    if n < 2 {
        digit_str(n as u8).to_owned()
    } else {
        let mut prefix = binary_string(n / 2);
        prefix.append(digit_str((n % 2) as u8));
        prefix
    }
}

/// Renders a number in binary, left-padded with zeros to at least `width`
/// characters; a rendering already that long is kept whole.
pub fn padded_binary_string(n: u32, width: u8) -> (r: String)
    ensures
        r@ == spec_zero_padded(spec_binary(n as int), width as int),
{
    let digit_count = binary_digit_count(n);
    let mut result = String::new();
    let mut padded: u8 = 0;
    while digit_count + (padded as u32) < (width as u32)
        invariant
            digit_count == spec_binary(n as int).len(),
            result@ =~= Seq::new(padded as nat, |i: int| '0'),
            padded == 0 || digit_count + (padded as u32) <= width as u32,
        decreases (width as int) - (digit_count as int) - (padded as int),
    {
        proof {
            reveal_strlit("0");
        }
        result.append("0");
        padded += 1;
        proof {
            assert(result@ =~= Seq::new(padded as nat, |i: int| '0'));
        }
    }
    let digits = binary_string(n);
    result.append(digits.as_str());
    proof {
        if spec_binary(n as int).len() >= width as int {
            assert(result@ =~= spec_binary(n as int));
        }
        assert(result@ =~= spec_zero_padded(spec_binary(n as int), width as int));
    }
    result
}

/// Counts the digits of the binary rendering of a number.
fn binary_digit_count(n: u32) -> (r: u32)
    ensures
        r == spec_binary(n as int).len(),
        1 <= r <= 32,
{
    let mut m: u32 = n;
    let mut count: u32 = 1;
    proof {
        lemma_binary_len(n as int);
    }
    while m >= 2
        invariant
            count + spec_binary(m as int).len() == 1 + spec_binary(n as int).len(),
            1 <= count,
            count + spec_binary(m as int).len() <= 33,
            spec_binary(m as int).len() >= 1,
        decreases m,
    {
        proof {
            lemma_binary_len(m as int);
        }
        m = m / 2;
        count += 1;
    }
    count
}

/// Two raised to the power `k`.
spec fn two_to(k: nat) -> int
    decreases k,
{
    if k == 0 {
        1
    } else {
        2 * two_to((k - 1) as nat)
    }
}

/// A number below two to the `k` has at most `k` binary digits.
proof fn lemma_binary_len_bound(n: int, k: nat)
    requires
        1 <= k,
        0 <= n < two_to(k),
    ensures
        1 <= spec_binary(n).len() <= k,
    decreases k,
{
    if n >= 2 {
        assert(two_to(k) == 2 * two_to((k - 1) as nat));
        lemma_binary_len_bound(n / 2, (k - 1) as nat);
    }
}

/// A binary rendering has between 1 and 32 digits for any `u32` value.
proof fn lemma_binary_len(n: int)
    requires
        0 <= n < 0x1_0000_0000,
    ensures
        1 <= spec_binary(n).len() <= 32,
{
    assert(two_to(32) == 0x1_0000_0000) by {
        reveal_with_fuel(two_to, 33);
    }
    lemma_binary_len_bound(n, 32);
}

} // verus!
