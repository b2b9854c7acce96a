//! Rendering numbers as text.

use vstd::prelude::*;
use vstd::string::StringExecFns;

verus! {

/// The decimal digit for a value below 10.
pub open spec fn digit_text(n: nat) -> Seq<char> {
    if n == 0 { "0"@ } else if n == 1 { "1"@ } else if n == 2 { "2"@ } else if n == 3 { "3"@ }
    else if n == 4 { "4"@ } else if n == 5 { "5"@ } else if n == 6 { "6"@ } else if n == 7 { "7"@ }
    else if n == 8 { "8"@ } else { "9"@ }
}

/// The uppercase hexadecimal digit for a value below 16.
pub open spec fn hex_upper_digit(n: nat) -> Seq<char> {
    if n < 10 { digit_text(n) } else if n == 10 { "A"@ } else if n == 11 { "B"@ }
    else if n == 12 { "C"@ } else if n == 13 { "D"@ } else if n == 14 { "E"@ } else { "F"@ }
}

/// Two uppercase hexadecimal digits, high nibble first.
pub open spec fn hex_upper_byte(b: u8) -> Seq<char> {
    hex_upper_digit((b / 16) as nat) + hex_upper_digit((b % 16) as nat)
}

/// The bytes in uppercase hexadecimal, two digits each, separated by `sep`.
pub open spec fn hex_upper_joined(b: Seq<u8>, sep: Seq<char>) -> Seq<char>
    decreases b.len(),
{
    if b.len() == 0 {
        Seq::empty()
    } else if b.len() == 1 {
        hex_upper_byte(b[0])
    } else {
        hex_upper_joined(b.drop_last(), sep) + sep + hex_upper_byte(b.last())
    }
}

/// Decimal notation of a natural number, without leading zeros.
pub open spec fn decimal(n: nat) -> Seq<char>
    decreases n,
{
    if n < 10 {
        digit_text(n)
    } else {
        decimal(n / 10) + digit_text(n % 10)
    }
}

fn digit_str(n: u64) -> (r: &'static str)
    requires
        n < 16,
    ensures
        r@ == hex_upper_digit(n as nat),
{
    match n {
        0 => "0",
        1 => "1",
        2 => "2",
        3 => "3",
        4 => "4",
        5 => "5",
        6 => "6",
        7 => "7",
        8 => "8",
        9 => "9",
        10 => "A",
        11 => "B",
        12 => "C",
        13 => "D",
        14 => "E",
        _ => "F",
    }
}

/// Appends the decimal notation of `n`.
pub fn push_decimal(s: &mut String, n: u64)
    ensures
        final(s)@ == old(s)@ + decimal(n as nat),
    decreases n,
{
    if n >= 10 {
        push_decimal(s, n / 10);
    }
    s.append(digit_str(n % 10));
    assert(final(s)@ =~= old(s)@ + decimal(n as nat));
}

/// Appends two uppercase hexadecimal digits for `b`.
pub fn push_hex_upper_byte(s: &mut String, b: u8)
    ensures
        final(s)@ == old(s)@ + hex_upper_byte(b),
{
    s.append(digit_str((b / 16) as u64));
    s.append(digit_str((b % 16) as u64));
    assert(final(s)@ =~= old(s)@ + hex_upper_byte(b));
}

/// Appends the bytes in uppercase hexadecimal, separated by `sep`.
pub fn push_hex_upper_joined(s: &mut String, b: &[u8], sep: &str)
    ensures
        final(s)@ == old(s)@ + hex_upper_joined(b@, sep@),
{
    let ghost start = s@;
    let mut i: usize = 0;
    while i < b.len()
        invariant
            i <= b.len(),
            s@ == start + hex_upper_joined(b@.subrange(0, i as int), sep@),
        decreases b.len() - i,
    {
        proof {
            let next = b@.subrange(0, i as int + 1);
            assert(next.drop_last() =~= b@.subrange(0, i as int));
        }
        if i > 0 {
            s.append(sep);
        }
        push_hex_upper_byte(s, b[i]);
        proof {
            let next = b@.subrange(0, i as int + 1);
            if i == 0 {
                assert(hex_upper_joined(b@.subrange(0, 0), sep@) =~= Seq::<char>::empty());
            }
            assert(s@ =~= start + hex_upper_joined(next, sep@));
        }
        i += 1;
    }
    assert(b@.subrange(0, b.len() as int) =~= b@);
}

} // verus!
