//! Rendering of byte counts and of counters.

use crate::text::{
    decimal_digits, digit_char, digit_of, push_decimal, right_justified, right_justify,
};
use num_format::{Locale, ToFormattedString};
use vstd::arithmetic::div_mod::lemma_fundamental_div_mod_converse;
use vstd::prelude::*;
use vstd::string::*;

verus! {

/// Bytes in one gigabyte, as this library counts it: 1024 * 1024 * 1024.
pub const GIGABYTE: u128 = 1_073_741_824;

/// Bytes in one terabyte: 1024 gigabytes.
pub const TERABYTE: u128 = 1_099_511_627_776;

/// `n / d` rounded to the nearest whole number; a quotient that lies exactly
/// halfway between two numbers goes to the even one.
pub open spec fn rounded_quotient(n: nat, d: nat) -> nat
    recommends
        d > 0,
{
    let q = n / d;
    let r = n % d;
    if 2 * r > d || (2 * r == d && q % 2 == 1) {
        q + 1
    } else {
        q
    }
}

/// A count of hundredths written with two decimals: 1234 is `12.34`.
pub open spec fn two_decimals(hundredths: nat) -> Seq<char> {
    decimal_digits(hundredths / 100).push('.').push(
        digit_char(((hundredths / 10) % 10) as int),
    ).push(digit_char((hundredths % 10) as int))
}

/// A count of thousandths written with three decimals: 1234 is `1.234`.
pub open spec fn three_decimals(thousandths: nat) -> Seq<char> {
    decimal_digits(thousandths / 1000).push('.').push(
        digit_char(((thousandths / 100) % 10) as int),
    ).push(digit_char(((thousandths / 10) % 10) as int)).push(
        digit_char((thousandths % 10) as int),
    )
}

/// The rendering of a byte count: in gigabytes with two decimals below one
/// terabyte, in terabytes with two decimals from one terabyte on.
pub open spec fn size_text(size: nat) -> Seq<char> {
    if size >= TERABYTE {
        two_decimals(rounded_quotient(size * 100, TERABYTE as nat)) + " TB"@
    } else {
        two_decimals(rounded_quotient(size * 100, GIGABYTE as nat)) + " GB"@
    }
}

/// The three decimal digits of a number below 1000, zeros included.
pub open spec fn three_digits(n: nat) -> Seq<char> {
    seq![
        digit_char((n / 100) as int),
        digit_char(((n / 10) % 10) as int),
        digit_char((n % 10) as int),
    ]
}

/// The decimal digits of `n` in groups of three, counted from the right,
/// with a comma between the groups: 1234567 is `1,234,567`.
pub open spec fn grouped_digits(n: nat) -> Seq<char>
    decreases n,
{
    if n < 1000 {
        decimal_digits(n)
    } else {
        grouped_digits(n / 1000) + seq![','] + three_digits(n % 1000)
    }
}

/// `size * 100 / unit`, rounded half to even.
fn hundredths_of(size: u128, unit: u128) -> (hundredths: u128)
    requires
        unit == GIGABYTE || unit == TERABYTE,
    ensures
        hundredths == rounded_quotient(size as nat * 100, unit as nat),
{
    let whole = size / unit;
    let rest = size % unit;
    let q = whole * 100 + (rest * 100) / unit;
    let r = (rest * 100) % unit;
    proof {
        let n = size as int * 100;
        assert(n == q as int * unit as int + r as int) by (nonlinear_arith)
            requires
                n == size as int * 100,
                size as int == whole as int * unit as int + rest as int,
                q as int == whole as int * 100 + (rest as int * 100) / (unit as int),
                r as int == (rest as int * 100) % (unit as int),
                unit as int > 0,
        {
        }
        lemma_fundamental_div_mod_converse(n, unit as int, q as int, r as int);
    }
    if 2 * r > unit || (2 * r == unit && q % 2 == 1) {
        q + 1
    } else {
        q
    }
}

fn push_two_decimals(out: &mut String, hundredths: u128)
    ensures
        final(out)@ == old(out)@ + two_decimals(hundredths as nat),
{
    push_decimal(out, hundredths / 100);
    out.push('.');
    out.push(digit_of(((hundredths / 10) % 10) as u8));
    out.push(digit_of((hundredths % 10) as u8));
}

/// Renders a byte count of any size that a sum of `usize` values can reach.
pub fn format_byte_count(size: u128) -> (text: String)
    ensures
        text@ == size_text(size as nat),
{
    let mut text = String::new();
    if size >= TERABYTE {
        push_two_decimals(&mut text, hundredths_of(size, TERABYTE));
        text.append(" TB");
    } else {
        push_two_decimals(&mut text, hundredths_of(size, GIGABYTE));
        text.append(" GB");
    }
    text
}

/// Renders a byte count in gigabytes, or in terabytes once it reaches 1024
/// gigabytes, with two decimals.
pub fn format_size(size: usize) -> (text: String)
    ensures
        text@ == size_text(size as nat),
{
    format_byte_count(size as u128)
}

/// `ToFormattedString::to_formatted_string` of num-format with `Locale::en`:
/// for an unsigned number it writes the decimal digits in groups of three,
/// counted from the right, and puts a comma between the groups.
#[verifier::external_body]
fn group_thousands(number: u128) -> (text: String)
    ensures
        text@ == grouped_digits(number as nat),
{
    number.to_formatted_string(&Locale::en)
}

/// The text of a counter: digits grouped in thousands, right-justified in
/// `width` characters.
pub open spec fn number_text(number: nat, width: nat) -> Seq<char> {
    right_justified(grouped_digits(number), width)
}

/// Renders a counter of any size that a sum of `usize` values can reach.
pub fn format_count(number: u128, width: usize) -> (text: String)
    ensures
        text@ == number_text(number as nat, width as nat),
{
    let grouped = group_thousands(number);
    right_justify(grouped.as_str(), width)
}

/// Renders a counter with thousands separators, right-justified in `width`
/// characters.
pub fn format_number(number: usize, width: usize) -> (text: String)
    ensures
        text@ == number_text(number as nat, width as nat),
{
    format_count(number as u128, width)
}

} // verus!
