//! Numbers as the dashboard writes them: counts, percentages, rates and
//! bars.

use vstd::prelude::*;
use vstd::string::*;

verus! {

/// Bytes in a kibibyte.
pub const KB: u64 = 1024;

/// Bytes in a mebibyte.
pub const MB: u64 = 1048576;

/// Bytes in a gibibyte.
pub const GB: u64 = 1073741824;

/// Hundredths of a percent in a full bar.
pub const FULL_USAGE: u32 = 10000;

/// The character of a decimal digit.
pub open spec fn digit(d: int) -> char {
    if d == 0 {
        '0'
    } else if d == 1 {
        '1'
    } else if d == 2 {
        '2'
    } else if d == 3 {
        '3'
    } else if d == 4 {
        '4'
    } else if d == 5 {
        '5'
    } else if d == 6 {
        '6'
    } else if d == 7 {
        '7'
    } else if d == 8 {
        '8'
    } else {
        '9'
    }
}

/// A natural number in decimal notation, without leading zeros.
pub open spec fn decimal(n: nat) -> Seq<char>
    decreases n,
{
    if n < 10 {
        seq![digit(n as int)]
    } else {
        decimal(n / 10).push(digit((n % 10) as int))
    }
}

/// A count of tenths as a number with one decimal place.
pub open spec fn one_decimal(tenths: nat) -> Seq<char> {
    decimal(tenths / 10) + seq!['.', digit((tenths % 10) as int)]
}

/// A count of hundredths as a number with two decimal places.
pub open spec fn two_decimals(hundredths: nat) -> Seq<char> {
    decimal(hundredths / 100) + seq![
        '.',
        digit((hundredths / 10 % 10) as int),
        digit((hundredths % 10) as int),
    ]
}

/// `n` times the character `c`.
pub open spec fn repeated(c: char, n: nat) -> Seq<char> {
    Seq::new(n, |i: int| c)
}

/// A text with spaces put in front until it has `width` characters.
pub open spec fn padded_left(s: Seq<char>, width: nat) -> Seq<char> {
    if s.len() >= width {
        s
    } else {
        repeated(' ', (width - s.len()) as nat) + s
    }
}

/// A quotient rounded to the nearest whole number, halves upwards.
pub open spec fn rounded_quotient(a: nat, b: nat) -> nat {
    (a + b / 2) / b
}

/// A usage in hundredths of a percent as a percentage with one decimal
/// place, at least five characters wide, and a percent sign.
pub open spec fn spec_percent_text(value: u32) -> Seq<char> {
    padded_left(one_decimal(rounded_quotient(value as nat, 10)), 5).push('%')
}

/// A rate in bytes per second in the largest unit that it fills: with two
/// decimal places in gibibytes and mebibytes, with one in kibibytes, and
/// as a whole number in bytes.
pub open spec fn spec_rate_text(bytes: u64) -> Seq<char> {
    if bytes >= GB {
        two_decimals(rounded_quotient(bytes as nat * 100, GB as nat)) + "GB/s"@
    } else if bytes >= MB {
        two_decimals(rounded_quotient(bytes as nat * 100, MB as nat)) + "MB/s"@
    } else if bytes >= KB {
        one_decimal(rounded_quotient(bytes as nat * 10, KB as nat)) + "KB/s"@
    } else {
        decimal(bytes as nat) + "B/s"@
    }
}

/// The cells of a bar of `width` cells that are filled at the given usage:
/// the share of the bar that the usage is of 100 %, rounded to whole
/// cells. A usage above 100 % fills the bar.
pub open spec fn spec_bar_fill(value: u32, width: usize) -> nat {
    let shown = if value > FULL_USAGE {
        FULL_USAGE
    } else {
        value
    };
    rounded_quotient(shown as nat * width as nat, FULL_USAGE as nat)
}

/// A bar of `width` cells for a usage, followed by the usage in figures.
pub open spec fn spec_progress_bar(value: u32, width: usize) -> Seq<char> {
    let filled = spec_bar_fill(value, width);
    repeated('█', filled) + repeated('░', (width - filled) as nat) + seq![' '] + spec_percent_text(
        value,
    )
}

/// The character of a decimal digit.
pub fn digit_of(d: u8) -> (r: char)
    requires
        d < 10,
    ensures
        r == digit(d as int),
{
    if d == 0 {
        '0'
    } else if d == 1 {
        '1'
    } else if d == 2 {
        '2'
    } else if d == 3 {
        '3'
    } else if d == 4 {
        '4'
    } else if d == 5 {
        '5'
    } else if d == 6 {
        '6'
    } else if d == 7 {
        '7'
    } else if d == 8 {
        '8'
    } else {
        '9'
    }
}

/// Appends a number in decimal notation to a text.
pub fn push_decimal(s: &mut String, n: u128)
    ensures
        final(s)@ == old(s)@ + decimal(n as nat),
    decreases n,
{
    if n >= 10 {
        push_decimal(s, n / 10);
    }
    let ghost before = s@;
    s.push(digit_of((n % 10) as u8));
    proof {
        if n >= 10 {
            assert(s@ =~= old(s)@ + decimal((n / 10) as nat).push(digit((n % 10) as int)));
        } else {
            assert(s@ =~= old(s)@ + seq![digit(n as int)]);
        }
    }
}

/// A number in decimal notation.
pub fn decimal_text(n: u64) -> (r: String)
    ensures
        r@ == decimal(n as nat),
{
    let mut r = String::new();
    push_decimal(&mut r, n as u128);
    assert(r@ =~= decimal(n as nat));
    r
}

/// Appends a count of tenths as a number with one decimal place.
fn push_one_decimal(s: &mut String, tenths: u128)
    ensures
        final(s)@ == old(s)@ + one_decimal(tenths as nat),
{
    push_decimal(s, tenths / 10);
    s.push('.');
    s.push(digit_of((tenths % 10) as u8));
    assert(s@ =~= old(s)@ + one_decimal(tenths as nat));
}

/// Appends a count of hundredths as a number with two decimal places.
fn push_two_decimals(s: &mut String, hundredths: u128)
    ensures
        final(s)@ == old(s)@ + two_decimals(hundredths as nat),
{
    push_decimal(s, hundredths / 100);
    s.push('.');
    s.push(digit_of((hundredths / 10 % 10) as u8));
    s.push(digit_of((hundredths % 10) as u8));
    assert(s@ =~= old(s)@ + two_decimals(hundredths as nat));
}

/// Appends `n` times the character `c`.
pub fn push_repeated(s: &mut String, c: char, n: usize)
    ensures
        final(s)@ == old(s)@ + repeated(c, n as nat),
{
    let mut i: usize = 0;
    assert(s@ =~= old(s)@ + repeated(c, 0));
    while i < n
        invariant
            i <= n,
            s@ == old(s)@ + repeated(c, i as nat),
        decreases n - i,
    {
        s.push(c);
        i = i + 1;
        assert(s@ =~= old(s)@ + repeated(c, i as nat));
    }
}

/// A usage as a percentage with one decimal place.
pub fn percent_text(value: u32) -> (r: String)
    ensures
        r@ == spec_percent_text(value),
{
    let tenths: u128 = (value as u128 + 5) / 10;
    let mut figures = String::new();
    push_one_decimal(&mut figures, tenths);
    assert(figures@ =~= one_decimal(rounded_quotient(value as nat, 10)));
    let len: usize = figures.as_str().unicode_len();
    let mut r = String::new();
    if len < 5 {
        push_repeated(&mut r, ' ', 5 - len);
    }
    r.append(figures.as_str());
    r.push('%');
    assert(r@ =~= spec_percent_text(value));
    r
}

/// A rate in bytes per second in the largest unit that it fills.
pub fn format_bytes_per_sec(bytes_per_sec: u64) -> (r: String)
    ensures
        r@ == spec_rate_text(bytes_per_sec),
{
    let bytes: u128 = bytes_per_sec as u128;
    let mut r = String::new();
    if bytes_per_sec >= GB {
        push_two_decimals(&mut r, (bytes * 100 + (GB / 2) as u128) / (GB as u128));
        r.append("GB/s");
    } else if bytes_per_sec >= MB {
        push_two_decimals(&mut r, (bytes * 100 + (MB / 2) as u128) / (MB as u128));
        r.append("MB/s");
    } else if bytes_per_sec >= KB {
        push_one_decimal(&mut r, (bytes * 10 + (KB / 2) as u128) / (KB as u128));
        r.append("KB/s");
    } else {
        push_decimal(&mut r, bytes);
        r.append("B/s");
    }
    assert(r@ =~= spec_rate_text(bytes_per_sec));
    r
}

/// The cells of a bar of `width` cells that are filled at the given usage.
pub fn bar_fill(value: u32, width: usize) -> (filled: usize)
    ensures
        filled == spec_bar_fill(value, width),
        filled <= width,
{
    let shown: u128 = if value > FULL_USAGE {
        FULL_USAGE as u128
    } else {
        value as u128
    };
    let full: u128 = FULL_USAGE as u128;
    assert(shown * (width as u128) <= full * (width as u128)) by (nonlinear_arith)
        requires
            shown <= full,
    ;
    assert(full * (width as u128) <= 10000 * 0xffff_ffff_ffff_ffff) by (nonlinear_arith)
        requires
            full == 10000,
            width <= 0xffff_ffff_ffff_ffff,
    ;
    let filled: u128 = (shown * (width as u128) + full / 2) / full;
    assert(filled <= width);
    filled as usize
}

/// A bar of `width` cells for a usage, followed by the usage in figures.
pub fn create_progress_bar(percentage: u32, width: usize) -> (r: String)
    ensures
        r@ == spec_progress_bar(percentage, width),
{
    let filled: usize = bar_fill(percentage, width);
    let mut r = String::new();
    push_repeated(&mut r, '█', filled);
    push_repeated(&mut r, '░', width - filled);
    r.push(' ');
    r.append(percent_text(percentage).as_str());
    assert(r@ =~= spec_progress_bar(percentage, width));
    r
}

} // verus!
