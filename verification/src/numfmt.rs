//! Exact textual rendering of the numbers that appear in the emitted markup:
//! unsigned decimals, six-digit lowercase hex colors, and signed fixed-point
//! pixel coordinates in thousandths (`"240.000"`, `"-0.500"`).

use vstd::prelude::*;
use vstd::string::StringExecFns;

verus! {

/// One decimal digit as text.
pub open spec fn spec_digit(d: int) -> Seq<char> {
    if d == 0 {
        "0"@
    } else if d == 1 {
        "1"@
    } else if d == 2 {
        "2"@
    } else if d == 3 {
        "3"@
    } else if d == 4 {
        "4"@
    } else if d == 5 {
        "5"@
    } else if d == 6 {
        "6"@
    } else if d == 7 {
        "7"@
    } else if d == 8 {
        "8"@
    } else {
        "9"@
    }
}

/// The decimal digits of `n`, most significant first, no sign and no padding.
pub open spec fn spec_dec(n: nat) -> Seq<char>
    decreases n,
{
    if n < 10 {
        spec_digit(n as int)
    } else {
        spec_dec(n / 10) + spec_digit((n % 10) as int)
    }
}

/// One lowercase hexadecimal digit as text.
pub open spec fn spec_hex_digit(d: int) -> Seq<char> {
    if d < 10 {
        spec_digit(d)
    } else if d == 10 {
        "a"@
    } else if d == 11 {
        "b"@
    } else if d == 12 {
        "c"@
    } else if d == 13 {
        "d"@
    } else if d == 14 {
        "e"@
    } else {
        "f"@
    }
}

/// A 24-bit value as exactly six lowercase hex digits, zero padded.
pub open spec fn spec_hex6(v: int) -> Seq<char> {
    spec_hex_digit(v / 0x100000 % 16) + spec_hex_digit(v / 0x10000 % 16) + spec_hex_digit(
        v / 0x1000 % 16,
    ) + spec_hex_digit(v / 0x100 % 16) + spec_hex_digit(v / 0x10 % 16) + spec_hex_digit(v % 16)
}

/// A non-negative count of thousandths as a decimal with exactly three
/// fractional digits (`1234` is `"1.234"`).
pub open spec fn spec_milli_mag(m: nat) -> Seq<char> {
    spec_dec(m / 1000) + "."@ + spec_digit((m / 100 % 10) as int) + spec_digit(
        (m / 10 % 10) as int,
    ) + spec_digit((m % 10) as int)
}

/// A signed count of thousandths as a decimal with exactly three fractional
/// digits and a leading minus sign when negative.
pub open spec fn spec_milli(n: int) -> Seq<char> {
    if n < 0 {
        "-"@ + spec_milli_mag((-n) as nat)
    } else {
        spec_milli_mag(n as nat)
    }
}

fn digit_str(d: u128) -> (r: &'static str)
    requires
        d < 10,
    ensures
        r@ == spec_digit(d as int),
{
    if d == 0 {
        "0"
    } else if d == 1 {
        "1"
    } else if d == 2 {
        "2"
    } else if d == 3 {
        "3"
    } else if d == 4 {
        "4"
    } else if d == 5 {
        "5"
    } else if d == 6 {
        "6"
    } else if d == 7 {
        "7"
    } else if d == 8 {
        "8"
    } else {
        "9"
    }
}

fn hex_digit_str(d: u32) -> (r: &'static str)
    requires
        d < 16,
    ensures
        r@ == spec_hex_digit(d as int),
{
    if d < 10 {
        digit_str(d as u128)
    } else if d == 10 {
        "a"
    } else if d == 11 {
        "b"
    } else if d == 12 {
        "c"
    } else if d == 13 {
        "d"
    } else if d == 14 {
        "e"
    } else {
        "f"
    }
}

/// `n` in decimal.
pub fn dec_string(n: u128) -> (s: String)
    ensures
        s@ == spec_dec(n as nat),
    decreases n,
{
    if n < 10 {
        String::from_str(digit_str(n))
    } else {
        let mut s = dec_string(n / 10);
        s.append(digit_str(n % 10));
        s
    }
}

/// `v` as six lowercase hex digits, as in a `#rrggbb` color.
pub fn hex6_string(v: u32) -> (s: String)
    requires
        v < 0x1000000,
    ensures
        s@ == spec_hex6(v as int),
{
    let mut s = String::from_str(hex_digit_str(v / 0x100000 % 16));
    s.append(hex_digit_str(v / 0x10000 % 16));
    s.append(hex_digit_str(v / 0x1000 % 16));
    s.append(hex_digit_str(v / 0x100 % 16));
    s.append(hex_digit_str(v / 0x10 % 16));
    s.append(hex_digit_str(v % 16));
    s
}

fn milli_mag_string(m: u128) -> (s: String)
    ensures
        s@ == spec_milli_mag(m as nat),
{
    let mut s = dec_string(m / 1000);
    s.append(".");
    s.append(digit_str(m / 100 % 10));
    s.append(digit_str(m / 10 % 10));
    s.append(digit_str(m % 10));
    s
}

/// A coordinate in thousandths of a pixel, as fixed-point decimal text.
pub fn milli_string(n: i64) -> (s: String)
    ensures
        s@ == spec_milli(n as int),
{
    if n < 0 {
        let m: u128 = (-(n as i128)) as u128;
        let mut s = String::from_str("-");
        let mag = milli_mag_string(m);
        s.append(mag.as_str());
        s
    } else {
        milli_mag_string(n as u128)
    }
}

} // verus!
