//! Text building blocks: decimal and hexadecimal numerals, padding, and the
//! human-readable byte counts shown while flashing.

use vstd::prelude::*;
use vstd::string::*;

verus! {

/// The character of digit `d` (0..16) in lower-case hexadecimal, which for
/// `d < 10` is also its decimal character.
pub open spec fn digit_char(d: int) -> char {
    if d < 10 {
        (d + 48) as char
    } else {
        (d + 87) as char
    }
}

/// `n` written in decimal, without leading zeros.
pub open spec fn decimal(n: nat) -> Seq<char>
    decreases n,
{
    if n < 10 {
        seq![digit_char(n as int)]
    } else {
        decimal(n / 10).push(digit_char((n % 10) as int))
    }
}

/// The lowest `width` hexadecimal digits of `n`, lower case, most significant
/// first (what `{:0width$x}` prints when `n < 16^width`).
pub open spec fn hex_digits(n: nat, width: nat) -> Seq<char>
    decreases width,
{
    if width == 0 {
        Seq::empty()
    } else {
        hex_digits(n / 16, (width - 1) as nat).push(digit_char((n % 16) as int))
    }
}

/// Appends one character to a string.
///
/// Calls `String::push`, which appends the given character to the end of the
/// string; the contract says exactly that.
#[verifier::external_body]
pub(crate) fn push_char(s: &mut String, c: char)
    ensures
        final(s)@ == old(s)@.push(c),
{
    s.push(c);
}

/// The character of a digit below 16.
fn digit(d: u8) -> (c: char)
    requires
        d < 16,
    ensures
        c == digit_char(d as int),
{
    if d < 10 {
        (d + 48) as char
    } else {
        (d + 87) as char
    }
}

/// Appends `n` in decimal.
pub fn push_decimal(s: &mut String, n: u128)
    ensures
        final(s)@ == old(s)@ + decimal(n as nat),
    decreases n,
{
    if n >= 10 {
        push_decimal(s, n / 10);
    }
    let d = (n % 10) as u8;
    push_char(s, digit(d));
}

/// Appends the lowest `width` hexadecimal digits of `n`, zero padded.
pub fn push_hex(s: &mut String, n: u32, width: u32)
    requires
        width <= 8,
    ensures
        final(s)@ == old(s)@ + hex_digits(n as nat, width as nat),
    decreases width,
{
    if width > 0 {
        push_hex(s, n / 16, width - 1);
        let d = (n % 16) as u8;
        push_char(s, digit(d));
    }
}


/// `s` right-aligned in a field of `width` characters, padded with spaces
/// (what `{:width$}` prints for a number).
pub open spec fn pad_left(s: Seq<char>, width: nat) -> Seq<char> {
    if s.len() < width {
        Seq::new((width - s.len()) as nat, |i: int| ' ') + s
    } else {
        s
    }
}

/// `count` copies of `c`.
pub open spec fn repeat(c: char, count: nat) -> Seq<char> {
    Seq::new(count, |i: int| c)
}

/// `a / d` rounded to the nearest integer, ties to the even neighbour.
pub open spec fn round_half_even(a: nat, d: nat) -> nat
    recommends
        d > 0,
{
    let q = a / d;
    let r = a % d;
    if 2 * r > d || (2 * r == d && q % 2 == 1) {
        q + 1
    } else {
        q
    }
}

/// The distance between neighbouring `f64` values near the integer `n`: 1
/// below 2^53, doubling with each further binary digit.
pub open spec fn f64_spacing(n: nat) -> nat
    decreases n,
{
    if n < 0x20_0000_0000_0000 {
        1
    } else {
        2 * f64_spacing(n / 2)
    }
}

/// The value of `n as f64`: `n` rounded to the nearest `f64`, ties to even.
pub open spec fn f64_value(n: nat) -> nat {
    let u = f64_spacing(n);
    round_half_even(n, u) * u
}

/// A count of tenths printed with one decimal place.
pub open spec fn tenths_text(t: nat) -> Seq<char> {
    decimal(t / 10).push('.').push(digit_char((t % 10) as int))
}

/// A byte count for people: below 1 KiB the exact number of bytes, else
/// KiB or MiB with one decimal. The count is taken as an `f64`, divided by
/// 1024 or 1024 * 1024 and rounded to one decimal, ties to even, as `{:.1}`
/// prints a float. Both divisors are powers of two, so the quotient is
/// exact; taking the count as an `f64` rounds counts of 2^53 bytes and more.
pub open spec fn byte_count_text(b: nat) -> Seq<char> {
    if b >= 1048576 {
        tenths_text(round_half_even(f64_value(b) * 10, 1048576)) + " MiB"@
    } else if b >= 1024 {
        tenths_text(round_half_even(b * 10, 1024)) + " KiB"@
    } else {
        decimal(b) + " B"@
    }
}

/// Width of the progress bar in characters.
pub const PROGRESS_BAR_WIDTH: usize = 24;

/// The part of the transfer that the progress line counts as written:
/// `written`, capped at `total`.
pub open spec fn shown_written(written: nat, total: nat) -> nat {
    if written < total {
        written
    } else {
        total
    }
}

/// How many of the bar's 24 cells are filled; all of them for an empty total.
pub open spec fn bar_fill(written: nat, total: nat) -> nat {
    if total == 0 {
        24
    } else {
        shown_written(written, total) * 24 / total
    }
}

/// The share written in whole percent, rounded down; 100 for an empty total.
pub open spec fn percent_done(written: nat, total: nat) -> nat {
    if total == 0 {
        100
    } else {
        shown_written(written, total) * 100 / total
    }
}

/// The progress line shown while writing: a bar of `=` and `-`, the share
/// written in percent, the amounts written and in total, and the next flash
/// address.
pub open spec fn progress_text(written: nat, total: nat, next_address: nat) -> Seq<char> {
    let filled = bar_fill(written, total);
    "Writing ["@ + repeat('=', filled) + repeat('-', (24 - filled) as nat) + "] "@ + pad_left(
        decimal(percent_done(written, total)),
        3,
    ) + "% "@ + byte_count_text(shown_written(written, total)) + "/"@ + byte_count_text(total)
        + " (next 0x"@ + hex_digits(next_address, 8) + ")"@
}

/// The progress bar always spans its 24 cells, and the line shows a full bar
/// and 100% exactly when everything is written.
pub proof fn law_progress_full_only_when_done(written: nat, total: nat)
    ensures
        bar_fill(written, total) <= 24,
        repeat('=', bar_fill(written, total)).len() + repeat(
            '-',
            (24 - bar_fill(written, total)) as nat,
        ).len() == 24,
        percent_done(written, total) <= 100,
        bar_fill(written, total) == 24 <==> written >= total,
        percent_done(written, total) == 100 <==> written >= total,
{
    if total > 0 {
        let c = shown_written(written, total);
        assert(c * 24 / total <= 24 && (c * 24 / total == 24 <==> c == total)) by (nonlinear_arith)
            requires
                c <= total,
                total > 0,
        ;
        assert(c * 100 / total <= 100 && (c * 100 / total == 100 <==> c == total))
            by (nonlinear_arith)
            requires
                c <= total,
                total > 0,
        ;
    }
}

fn round_half_even_exec(a: u128, d: u128) -> (q: u128)
    requires
        0 < d <= 0x1_0000_0000_0000_0000,
        a <= 0x1_0000_0000_0000_0000_0000,
    ensures
        q == round_half_even(a as nat, d as nat),
{
    let q = a / d;
    let r = a % d;
    if 2 * r > d || (2 * r == d && q % 2 == 1) {
        q + 1
    } else {
        q
    }
}

/// The value of `n as f64`, computed on integers.
fn f64_value_exec(n: u128) -> (v: u128)
    requires
        n <= u64::MAX,
    ensures
        v == f64_value(n as nat),
        v <= 0x2_0000_0000_0000_0000,
{
    let mut unit: u128 = 1;
    let mut m: u128 = n;
    while m >= 0x20_0000_0000_0000
        invariant
            n <= u64::MAX,
            1 <= unit <= 4096,
            m == n as nat / unit as nat,
            f64_spacing(n as nat) == unit * f64_spacing(m as nat),
        decreases m,
    {
        proof {
            vstd::arithmetic::div_mod::lemma_fundamental_div_mod(n as int, unit as int);
            assert(unit * m <= n) by (nonlinear_arith)
                requires
                    m == n as nat / unit as nat,
                    unit >= 1,
                    n == unit * (n as nat / unit as nat) + n as nat % unit as nat,
                    n as nat % unit as nat >= 0,
            ;
            assert(unit < 2048) by (nonlinear_arith)
                requires
                    unit * m <= n,
                    m >= 0x20_0000_0000_0000,
                    n <= u64::MAX,
                    unit >= 1,
            ;
            vstd::arithmetic::div_mod::lemma_div_denominator(n as int, unit as int, 2);
            assert(f64_spacing(m as nat) == 2 * f64_spacing((m / 2) as nat));
            let x = f64_spacing((m / 2) as nat);
            assert(unit * (2 * x) == (unit * 2) * x) by (nonlinear_arith);
        }
        m = m / 2;
        unit = unit * 2;
    }
    assert(f64_spacing(m as nat) == 1);
    assert(f64_spacing(n as nat) == unit) by (nonlinear_arith)
        requires
            f64_spacing(n as nat) == unit * f64_spacing(m as nat),
            f64_spacing(m as nat) == 1,
    ;
    let q = n / unit;
    let r = n % unit;
    let rounded = if 2 * r > unit || (2 * r == unit && q % 2 == 1) {
        q + 1
    } else {
        q
    };
    assert(rounded * unit <= 0x2_0000_0000_0000_0000) by (nonlinear_arith)
        requires
            rounded <= 0x20_0000_0000_0000,
            unit <= 4096,
    ;
    assert(rounded == round_half_even(n as nat, unit as nat));
    rounded * unit
}

/// Appends a count of tenths with one decimal place.
fn push_tenths(s: &mut String, t: u128)
    ensures
        final(s)@ == old(s)@ + tenths_text(t as nat),
{
    push_decimal(s, t / 10);
    push_char(s, '.');
    push_char(s, digit((t % 10) as u8));
}

/// Formats a byte count for people, as `byte_count_text` describes.
pub fn format_bytes(bytes: usize) -> (text: String)
    ensures
        text@ == byte_count_text(bytes as nat),
{
    let mut text = String::new();
    if bytes >= 1048576 {
        let value = f64_value_exec(bytes as u128);
        push_tenths(&mut text, round_half_even_exec(value * 10, 1048576));
        text.append(" MiB");
    } else if bytes >= 1024 {
        push_tenths(&mut text, round_half_even_exec(bytes as u128 * 10, 1024));
        text.append(" KiB");
    } else {
        push_decimal(&mut text, bytes as u128);
        text.append(" B");
    }
    text
}

/// Appends `count` copies of `c`.
fn push_repeat(s: &mut String, c: char, count: usize)
    ensures
        final(s)@ == old(s)@ + repeat(c, count as nat),
{
    let ghost start = s@;
    let mut i: usize = 0;
    while i < count
        invariant
            i <= count,
            s@ == start + repeat(c, i as nat),
        decreases count - i,
    {
        push_char(s, c);
        i = i + 1;
        assert(s@ =~= start + repeat(c, i as nat));
    }
}

/// Appends a number below 1000 right-aligned in three columns.
fn push_decimal_width3(s: &mut String, n: u128)
    requires
        n < 1000,
    ensures
        final(s)@ == old(s)@ + pad_left(decimal(n as nat), 3),
{
    let ghost start = s@;
    if n < 10 {
        push_char(s, ' ');
        push_char(s, ' ');
        assert(decimal(n as nat).len() == 1);
    } else if n < 100 {
        push_char(s, ' ');
        assert(decimal((n / 10) as nat).len() == 1);
        assert(decimal(n as nat).len() == 2);
    } else {
        assert(decimal((n / 100) as nat).len() == 1);
        assert(decimal((n / 10) as nat).len() == 2);
        assert(decimal(n as nat).len() == 3);
    }
    push_decimal(s, n);
    assert(s@ =~= start + pad_left(decimal(n as nat), 3));
}

/// The progress line shown while writing, as `progress_text` describes.
pub fn format_transfer_progress(written: usize, total: usize, next_address: u32) -> (line: String)
    ensures
        line@ == progress_text(written as nat, total as nat, next_address as nat),
{
    let capped = if written < total {
        written
    } else {
        total
    };
    let filled: usize = if total == 0 {
        PROGRESS_BAR_WIDTH
    } else {
        assert(capped as nat * 24 / total as nat <= 24) by (nonlinear_arith)
            requires
                capped <= total,
                total > 0,
        ;
        ((capped as u128 * 24) / total as u128) as usize
    };
    let percent: u128 = if total == 0 {
        100
    } else {
        assert(capped as nat * 100 / total as nat <= 100) by (nonlinear_arith)
            requires
                capped <= total,
                total > 0,
        ;
        (capped as u128 * 100) / total as u128
    };
    let mut line = String::from_str("Writing [");
    push_repeat(&mut line, '=', filled);
    push_repeat(&mut line, '-', PROGRESS_BAR_WIDTH - filled);
    line.append("] ");
    push_decimal_width3(&mut line, percent);
    line.append("% ");
    let written_text = format_bytes(capped);
    line.append(written_text.as_str());
    line.append("/");
    let total_text = format_bytes(total);
    line.append(total_text.as_str());
    line.append(" (next 0x");
    push_hex(&mut line, next_address, 8);
    line.append(")");
    line
}

} // verus!
