//! Dates of the proleptic Gregorian calendar and the way they are written.

use vstd::prelude::*;

verus! {

/// The earliest year a date can have.
pub const MIN_YEAR: i32 = -262143;

/// The latest year a date can have.
pub const MAX_YEAR: i32 = 262142;

/// Whether year `y` has a 29th of February.
pub open spec fn is_leap_year(y: int) -> bool {
    y % 4 == 0 && (y % 100 != 0 || y % 400 == 0)
}

/// The number of days of month `m` in year `y`.
pub open spec fn days_in_month(y: int, m: int) -> int {
    if m == 2 {
        if is_leap_year(y) {
            29
        } else {
            28
        }
    } else if m == 4 || m == 6 || m == 9 || m == 11 {
        30
    } else {
        31
    }
}

/// Whether day `d` of month `m` of year `y` exists.
pub open spec fn valid_date(y: int, m: int, d: int) -> bool {
    MIN_YEAR <= y <= MAX_YEAR && 1 <= m <= 12 && 1 <= d <= days_in_month(y, m)
}

/// The day after `(y, m, d)`.
pub open spec fn next_day(y: int, m: int, d: int) -> (int, int, int) {
    if d < days_in_month(y, m) {
        (y, m, d + 1)
    } else if m < 12 {
        (y, m + 1, 1)
    } else {
        (y + 1, 1, 1)
    }
}

/// The character that stands for the digit `n`.
pub open spec fn digit(n: int) -> char {
    if n == 0 {
        '0'
    } else if n == 1 {
        '1'
    } else if n == 2 {
        '2'
    } else if n == 3 {
        '3'
    } else if n == 4 {
        '4'
    } else if n == 5 {
        '5'
    } else if n == 6 {
        '6'
    } else if n == 7 {
        '7'
    } else if n == 8 {
        '8'
    } else {
        '9'
    }
}

/// The last two decimal digits of `n`.
pub open spec fn two_digits(n: int) -> Seq<char> {
    seq![digit(n / 10 % 10), digit(n % 10)]
}

/// `n` in decimal, with zeros in front where it has fewer than `width`
/// digits.
pub open spec fn decimal(n: nat, width: nat) -> Seq<char>
    decreases n, width,
{
    if n < 10 && width <= 1 {
        seq![digit(n as int)]
    } else {
        decimal(n / 10, if width == 0 { 0 } else { (width - 1) as nat }).push(digit(n as int % 10))
    }
}

/// The way year `y` is written: four digits for the years 0 to 9999, else a
/// sign and at least four digits.
pub open spec fn year_text(y: int) -> Seq<char> {
    if 0 <= y <= 9999 {
        two_digits(y / 100) + two_digits(y % 100)
    } else if y < 0 {
        seq!['-'] + decimal((-y) as nat, 4)
    } else {
        seq!['+'] + decimal(y as nat, 4)
    }
}

/// The way the date `(y, m, d)` is written: year, month and day with `-`
/// between them.
pub open spec fn date_text(y: int, m: int, d: int) -> Seq<char> {
    year_text(y) + seq!['-'] + two_digits(m) + seq!['-'] + two_digits(d)
}

/// Decides `is_leap_year`.
pub fn leap_year(y: i32) -> (b: bool)
    ensures
        b == is_leap_year(y as int),
{
    // 2_147_484_000 is a multiple of 400 above every `i32`'s magnitude.
    let p: i64 = y as i64 + 2_147_484_000;
    p % 4 == 0 && (p % 100 != 0 || p % 400 == 0)
}

/// Computes `days_in_month`.
pub fn month_length(y: i32, m: u32) -> (n: u32)
    ensures
        n == days_in_month(y as int, m as int),
{
    if m == 2 {
        if leap_year(y) {
            29
        } else {
            28
        }
    } else if m == 4 || m == 6 || m == 9 || m == 11 {
        30
    } else {
        31
    }
}

/// Decides `valid_date`.
pub fn date_exists(y: i32, m: u32, d: u32) -> (b: bool)
    ensures
        b == valid_date(y as int, m as int, d as int),
{
    MIN_YEAR <= y && y <= MAX_YEAR && 1 <= m && m <= 12 && 1 <= d && d <= month_length(y, m)
}

/// The day after `(y, m, d)`.
pub fn tomorrow(y: i32, m: u32, d: u32) -> (r: (i32, u32, u32))
    requires
        valid_date(y as int, m as int, d as int),
    ensures
        (r.0 as int, r.1 as int, r.2 as int) == next_day(y as int, m as int, d as int),
{
    if d < month_length(y, m) {
        (y, m, d + 1)
    } else if m < 12 {
        (y, m + 1, 1)
    } else {
        (y + 1, 1, 1)
    }
}

/// Computes `digit`.
pub fn digit_char(n: u32) -> (c: char)
    requires
        n < 10,
    ensures
        c == digit(n as int),
{
    if n == 0 {
        '0'
    } else if n == 1 {
        '1'
    } else if n == 2 {
        '2'
    } else if n == 3 {
        '3'
    } else if n == 4 {
        '4'
    } else if n == 5 {
        '5'
    } else if n == 6 {
        '6'
    } else if n == 7 {
        '7'
    } else if n == 8 {
        '8'
    } else {
        '9'
    }
}

/// Appends `two_digits(n)` to `out`.
pub fn push_two_digits(out: &mut Vec<char>, n: u32)
    ensures
        final(out)@ == old(out)@ + two_digits(n as int),
{
    out.push(digit_char(n / 10 % 10));
    out.push(digit_char(n % 10));
    assert(final(out)@ == old(out)@ + two_digits(n as int));
}

/// Appends `decimal(n, width)` to `out`.
pub fn push_decimal(out: &mut Vec<char>, n: u32, width: u32)
    ensures
        final(out)@ == old(out)@ + decimal(n as nat, width as nat),
    decreases n, width,
{
    if n < 10 && width <= 1 {
        out.push(digit_char(n));
        assert(final(out)@ == old(out)@ + seq![digit(n as int)]);
    } else {
        let w: u32 = if width == 0 {
            0
        } else {
            width - 1
        };
        push_decimal(out, n / 10, w);
        out.push(digit_char(n % 10));
        assert(final(out)@ == old(out)@ + decimal((n / 10) as nat, w as nat).push(
            digit(n as int % 10),
        ));
    }
}

/// The date `(y, m, d)` as it is written.
pub fn write_date(y: i32, m: u32, d: u32) -> (out: Vec<char>)
    ensures
        out@ == date_text(y as int, m as int, d as int),
{
    let mut out: Vec<char> = Vec::new();
    if 0 <= y && y <= 9999 {
        let p: u32 = y as u32;
        push_two_digits(&mut out, p / 100);
        push_two_digits(&mut out, p % 100);
        assert(out@ == year_text(y as int));
    } else if y < 0 {
        out.push('-');
        let p: u32 = (0 - y as i64) as u32;
        push_decimal(&mut out, p, 4);
        assert(out@ == year_text(y as int));
    } else {
        out.push('+');
        push_decimal(&mut out, y as u32, 4);
        assert(out@ == year_text(y as int));
    }
    out.push('-');
    push_two_digits(&mut out, m);
    out.push('-');
    push_two_digits(&mut out, d);
    assert(out@ == date_text(y as int, m as int, d as int));
    out
}

} // verus!
