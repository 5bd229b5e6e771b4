//! Values given on the command line: a partition base in hexadecimal and the
//! name of the microcontroller to flash.

use vstd::prelude::*;
use vstd::string::*;

use crate::target::AP2Target;
use crate::text::{digit_char, hex_digits};

verus! {

#[verifier::external_type_specification]
#[verifier::external_body]
pub struct ExParseIntError(std::num::ParseIntError);

/// The value of a hexadecimal digit: 0-9, a-f and A-F.
pub open spec fn hex_digit_value(c: char) -> Option<nat> {
    if '0' <= c && c <= '9' {
        Some((c as nat - '0' as nat) as nat)
    } else if 'a' <= c && c <= 'f' {
        Some((c as nat - 'a' as nat + 10) as nat)
    } else if 'A' <= c && c <= 'F' {
        Some((c as nat - 'A' as nat + 10) as nat)
    } else {
        None
    }
}

/// Every character is a hexadecimal digit.
pub open spec fn all_hex_digits(s: Seq<char>) -> bool {
    forall|i: int| 0 <= i < s.len() ==> (#[trigger] hex_digit_value(s[i])) is Some
}

/// The number that hexadecimal digits write.
pub open spec fn hex_number(s: Seq<char>) -> nat
    decreases s.len(),
{
    if s.len() == 0 {
        0
    } else {
        hex_number(s.drop_last()) * 16 + hex_digit_value(s.last()).unwrap_or(0)
    }
}

/// What `u32::from_str_radix(s, 16)` accepts and gives: an optional `+`
/// followed by at least one hexadecimal digit, of a value that fits in a
/// `u32`.
pub open spec fn hex_u32(s: Seq<char>) -> Option<u32> {
    let digits = if s.len() > 0 && s[0] == '+' {
        s.drop_first()
    } else {
        s
    };
    if digits.len() > 0 && all_hex_digits(digits) && hex_number(digits) <= u32::MAX {
        Some(hex_number(digits) as u32)
    } else {
        None
    }
}

/// Reads a `u32` written in hexadecimal.
///
/// Calls `u32::from_str_radix(digits, 16)`. Its documentation says that the
/// string is an optional `+` followed by only digits (here 0-9, a-f, A-F),
/// that anything else is an error, and names a value too large for the type
/// as an error too; the contract says that, and nothing of which error.
#[verifier::external_body]
fn u32_from_hex(digits: &str) -> (parsed: Result<u32, std::num::ParseIntError>)
    ensures
        match hex_u32(digits@) {
            Some(value) => parsed matches Ok(v) && v == value,
            None => parsed is Err,
        },
{
    u32::from_str_radix(digits, 16)
}

/// `s` without a leading `0x`, if it has one.
pub open spec fn without_hex_prefix(s: Seq<char>) -> Seq<char> {
    if s.len() >= 2 && s[0] == '0' && s[1] == 'x' {
        s.subrange(2, s.len() as int)
    } else {
        s
    }
}

/// Reads a partition base given in hexadecimal, with or without a leading
/// `0x`.
///
/// On failure the error is the one that `u32::from_str_radix` gives for the
/// text after the prefix, handed on unchanged; the contract does not say
/// which it is, since nothing here can state what a `ParseIntError` holds.
pub fn parse_hex(src: &str) -> (parsed: Result<u32, std::num::ParseIntError>)
    ensures
        match hex_u32(without_hex_prefix(src@)) {
            Some(value) => parsed matches Ok(v) && v == value,
            None => parsed is Err,
        },
{
    let len = src.unicode_len();
    if len >= 2 && src.get_char(0) == '0' && src.get_char(1) == 'x' {
        u32_from_hex(src.substring_char(2, len))
    } else {
        u32_from_hex(src)
    }
}

/// 16 to the power `width`: the numbers below it have `width` hexadecimal
/// digits.
pub open spec fn pow16(width: nat) -> nat
    decreases width,
{
    if width == 0 {
        1
    } else {
        16 * pow16((width - 1) as nat)
    }
}

/// The lowest `width` hexadecimal digits of `n`, upper case (what
/// `{:0width$X}` prints when `n < 16^width`).
pub open spec fn upper_hex_digits(n: nat, width: nat) -> Seq<char>
    decreases width,
{
    if width == 0 {
        Seq::empty()
    } else {
        let d = (n % 16) as int;
        upper_hex_digits(n / 16, (width - 1) as nat).push(
            if d < 10 {
                (d + 48) as char
            } else {
                (d + 55) as char
            },
        )
    }
}

proof fn lemma_digits_read_back(n: nat, width: nat, upper: bool)
    requires
        n < pow16(width),
    ensures
        ({
            let digits = if upper {
                upper_hex_digits(n, width)
            } else {
                hex_digits(n, width)
            };
            &&& digits.len() == width
            &&& all_hex_digits(digits)
            &&& hex_number(digits) == n
            &&& forall|i: int| 0 <= i < width ==> #[trigger] digits[i] != 'x' && digits[i] != '+'
        }),
    decreases width,
{
    if width > 0 {
        let w = (width - 1) as nat;
        assert(n / 16 < pow16(w)) by (nonlinear_arith)
            requires
                n < 16 * pow16(w),
        ;
        lemma_digits_read_back(n / 16, w, upper);
        let earlier = if upper {
            upper_hex_digits(n / 16, w)
        } else {
            hex_digits(n / 16, w)
        };
        let digits = if upper {
            upper_hex_digits(n, width)
        } else {
            hex_digits(n, width)
        };
        let d = n % 16;
        assert(digits == earlier.push(digits.last()));
        assert(hex_digit_value(digits.last()) == Some(d));
        assert(digits.drop_last() =~= earlier);
        assert(n == (n / 16) * 16 + d) by (nonlinear_arith)
            requires
                d == n % 16,
        ;
        assert forall|i: int| 0 <= i < digits.len() implies (#[trigger] hex_digit_value(
            digits[i],
        )) is Some by {
            if i < w {
                assert(digits[i] == earlier[i]);
            }
        }
        assert(hex_digit_value('x') is None && hex_digit_value('+') is None);
        assert forall|i: int| 0 <= i < width implies #[trigger] digits[i] != 'x' && digits[i]
            != '+' by {
            assert(hex_digit_value(digits[i]) is Some);
        }
    }
}

/// The hexadecimal text of a `u32` reads back as it: its lower-case digits
/// in any width that holds it (the shortest of which `{:x}` prints), with or
/// without a leading `0x`, and its eight upper-case digits (`{:08X}`).
pub proof fn law_hex_text_reads_back(n: u32, width: nat)
    requires
        0 < width,
        n < pow16(width),
    ensures
        hex_u32(without_hex_prefix(hex_digits(n as nat, width))) == Some(n),
        hex_u32(without_hex_prefix(seq!['0', 'x'] + hex_digits(n as nat, width))) == Some(n),
        hex_u32(without_hex_prefix(upper_hex_digits(n as nat, 8))) == Some(n),
{
    lemma_digits_read_back(n as nat, width, false);
    let lower = hex_digits(n as nat, width);
    assert(all_hex_digits(lower) && hex_number(lower) == n);
    assert(hex_digit_value('x') is None && hex_digit_value('+') is None);
    if width >= 2 {
        assert(hex_digit_value(lower[1]) is Some);
    }
    assert(hex_digit_value(lower[0]) is Some);
    assert(without_hex_prefix(lower) == lower);
    let prefixed = seq!['0', 'x'] + lower;
    assert(without_hex_prefix(prefixed) =~= lower);
    assert(pow16(8) == 0x1_0000_0000) by {
        reveal_with_fuel(pow16, 9);
    }
    lemma_digits_read_back(n as nat, 8, true);
    let upper = upper_hex_digits(n as nat, 8);
    assert(all_hex_digits(upper) && hex_number(upper) == n);
    assert(hex_digit_value(upper[1]) is Some && hex_digit_value(upper[0]) is Some);
    assert(without_hex_prefix(upper) == upper);
}

/// `c` with an ASCII upper-case letter turned to lower case.
pub open spec fn ascii_lower(c: char) -> char {
    if 'A' <= c && c <= 'Z' {
        (c as nat + 32) as char
    } else {
        c
    }
}

/// `a` and `b` are equal when ASCII letters are compared without regard to
/// case.
pub open spec fn ascii_case_eq(a: Seq<char>, b: Seq<char>) -> bool {
    &&& a.len() == b.len()
    &&& forall|i: int| 0 <= i < a.len() ==> ascii_lower(#[trigger] a[i]) == ascii_lower(b[i])
}

fn to_ascii_lower(c: char) -> (lower: char)
    ensures
        lower == ascii_lower(c),
{
    if 'A' <= c && c <= 'Z' {
        ((c as u8) + 32) as char
    } else {
        c
    }
}

/// Compares two strings, ignoring the case of ASCII letters.
fn eq_ignore_ascii_case(a: &str, b: &str) -> (same: bool)
    ensures
        same == ascii_case_eq(a@, b@),
{
    let len = a.unicode_len();
    if len != b.unicode_len() {
        return false;
    }
    let mut i: usize = 0;
    while i < len
        invariant
            len == a@.len() == b@.len(),
            i <= len,
            forall|j: int| 0 <= j < i ==> ascii_lower(#[trigger] a@[j]) == ascii_lower(b@[j]),
        decreases len - i,
    {
        if to_ascii_lower(a.get_char(i)) != to_ascii_lower(b.get_char(i)) {
            return false;
        }
        i = i + 1;
    }
    true
}

/// What `{:?}` prints for a string: the string quoted, with escapes.
pub uninterp spec fn str_debug(s: Seq<char>) -> Seq<char>;

/// The string as `{:?}` prints it.
///
/// Calls `format!("{value:?}")` (`Debug` for `str`), whose result depends on
/// the string alone; the contract names it and says no more.
#[verifier::external_body]
fn debug_text(value: &str) -> (text: String)
    ensures
        text@ == str_debug(value@),
{
    format!("{value:?}")
}

/// The target that a name on the command line chooses: `ble`, `main` or
/// `key`, and `led`, in any case of ASCII letters.
pub open spec fn named_target(name: Seq<char>) -> Option<AP2Target> {
    if ascii_case_eq(name, "ble"@) {
        Some(AP2Target::McuBle)
    } else if ascii_case_eq(name, "main"@) || ascii_case_eq(name, "key"@) {
        Some(AP2Target::McuMain)
    } else if ascii_case_eq(name, "led"@) {
        Some(AP2Target::McuLed)
    } else {
        None
    }
}

/// The message that refuses a target name, given the name as `{:?}`
/// prints it.
pub fn invalid_target_message(quoted: &str) -> (text: String)
    ensures
        text@ == "invalid target "@ + quoted@ + "; choose main/key, led, or ble"@,
{
    let mut text = String::from_str("invalid target ");
    text.append(quoted);
    text.append("; choose main/key, led, or ble");
    text
}

/// Reads the name of the microcontroller to flash.
pub fn parse_target(value: &str) -> (target: Result<AP2Target, String>)
    ensures
        match named_target(value@) {
            Some(t) => target == Ok::<AP2Target, String>(t),
            None => target matches Err(text) && text@ == "invalid target "@ + str_debug(value@)
                + "; choose main/key, led, or ble"@,
        },
{
    if eq_ignore_ascii_case(value, "ble") {
        Ok(AP2Target::McuBle)
    } else if eq_ignore_ascii_case(value, "main") || eq_ignore_ascii_case(value, "key") {
        Ok(AP2Target::McuMain)
    } else if eq_ignore_ascii_case(value, "led") {
        Ok(AP2Target::McuLed)
    } else {
        let quoted = debug_text(value);
        Err(invalid_target_message(quoted.as_str()))
    }
}

} // verus!
