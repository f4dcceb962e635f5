//! Hexadecimal numbers as they appear in a section table.

use vstd::prelude::*;
use vstd::string::is_ascii_spec_bytes;

verus! {

/// The code of `+`.
const ASCII_PLUS: u8 = 0x2b;

/// The code of `0`.
const ASCII_0: u8 = 0x30;

/// The code of `9`.
const ASCII_9: u8 = 0x39;

/// The code of `A`.
const ASCII_UPPER_A: u8 = 0x41;

/// The code of `F`.
const ASCII_UPPER_F: u8 = 0x46;

/// The code of `a`.
const ASCII_LOWER_A: u8 = 0x61;

/// The code of `f`.
const ASCII_LOWER_F: u8 = 0x66;

/// The value of one hexadecimal digit; letters count in upper and in lower
/// writing.
pub open spec fn hex_digit_of(c: char) -> Option<nat> {
    if '0' <= c <= '9' {
        Some((c as nat - '0' as nat) as nat)
    } else if 'a' <= c <= 'f' {
        Some((c as nat - 'a' as nat + 10) as nat)
    } else if 'A' <= c <= 'F' {
        Some((c as nat - 'A' as nat + 10) as nat)
    } else {
        None
    }
}

/// Whether every character of `s` is a hexadecimal digit.
pub open spec fn all_hex_digits(s: Seq<char>) -> bool {
    forall|i: int| 0 <= i < s.len() ==> (#[trigger] hex_digit_of(s[i])) is Some
}

/// The number that a sequence of hexadecimal digits denotes, most
/// significant digit first. Characters that are no digits count as zero.
pub open spec fn digits_value(s: Seq<char>) -> nat
    decreases s.len(),
{
    if s.len() == 0 {
        0
    } else {
        16 * digits_value(s.drop_last()) + match hex_digit_of(s.last()) {
            Some(d) => d,
            None => 0,
        }
    }
}

/// The digits of a number text: the text without one leading `+`.
pub open spec fn digits_of(s: Seq<char>) -> Seq<char> {
    if s.len() > 0 && s[0] == '+' {
        s.drop_first()
    } else {
        s
    }
}

/// The 32-bit value of a hexadecimal text: an optional `+`, then one or more
/// hexadecimal digits whose value does not exceed `u32::MAX`. Any other text
/// has no value.
pub open spec fn hex_text_value(s: Seq<char>) -> Option<u32> {
    let digits = digits_of(s);
    if digits.len() > 0 && all_hex_digits(digits) && digits_value(digits) <= u32::MAX {
        Some(digits_value(digits) as u32)
    } else {
        None
    }
}

/// Appending a digit multiplies the value by sixteen and adds the digit.
proof fn lemma_value_step(s: Seq<char>, k: int)
    requires
        0 <= k < s.len(),
    ensures
        digits_value(s.take(k + 1)) == 16 * digits_value(s.take(k)) + match hex_digit_of(s[k]) {
            Some(d) => d,
            None => 0,
        },
{
    assert(s.take(k + 1).drop_last() =~= s.take(k));
}

/// The value of a prefix never exceeds the value of the whole.
proof fn lemma_value_of_prefix(s: Seq<char>, k: int)
    requires
        0 <= k <= s.len(),
    ensures
        digits_value(s.take(k)) <= digits_value(s),
    decreases s.len() - k,
{
    if k == s.len() {
        assert(s.take(k) =~= s);
    } else {
        lemma_value_step(s, k);
        lemma_value_of_prefix(s, k + 1);
    }
}

/// A text with a character outside ASCII has no value.
proof fn lemma_non_ascii_has_no_value(s: Seq<char>)
    requires
        !vstd::utf8::is_ascii_chars(s),
    ensures
        hex_text_value(s) is None,
{
    let i = choose|i: int| 0 <= i < s.len() && !('\0' <= #[trigger] s[i] <= '\u{7f}');
    let digits = digits_of(s);
    if s.len() > 0 && s[0] == '+' {
        assert(hex_digit_of(digits[i - 1]) is None);
    } else {
        assert(hex_digit_of(digits[i]) is None);
    }
}

/// The value of an ASCII byte read as a hexadecimal digit.
fn hex_digit(b: u8) -> (r: Option<u32>)
    ensures
        match r {
            Some(d) => hex_digit_of(b as char) == Some(d as nat) && d < 16,
            None => hex_digit_of(b as char) is None,
        },
{
    if ASCII_0 <= b && b <= ASCII_9 {
        Some((b - ASCII_0) as u32)
    } else if ASCII_LOWER_A <= b && b <= ASCII_LOWER_F {
        Some((b - ASCII_LOWER_A) as u32 + 10)
    } else if ASCII_UPPER_A <= b && b <= ASCII_UPPER_F {
        Some((b - ASCII_UPPER_A) as u32 + 10)
    } else {
        None
    }
}

/// Reads a hexadecimal number of at most 32 bits.
pub fn parse_hex(s: &str) -> (r: Option<u32>)
    ensures
        r == hex_text_value(s@),
{
    if !s.is_ascii() {
        proof {
            lemma_non_ascii_has_no_value(s@);
        }
        return None;
    }
    proof {
        is_ascii_spec_bytes(s);
    }
    let bytes = s.as_bytes();
    let n = bytes.len();
    let start: usize = if n > 0 && bytes[0] == ASCII_PLUS { 1 } else { 0 };
    let ghost digits = digits_of(s@);
    if start == n {
        return None;
    }
    let mut acc: u32 = 0;
    let mut i: usize = start;
    while i < n
        invariant
            start <= i <= n,
            n == s@.len(),
            n == bytes@.len(),
            digits == s@.subrange(start as int, n as int),
            digits == digits_of(s@),
            vstd::utf8::is_ascii_chars(s@),
            forall|k: int| 0 <= k < n ==> bytes@[k] == s@[k] as u8,
            all_hex_digits(digits.take(i - start)),
            acc == digits_value(digits.take(i - start)),
        decreases n - i,
    {
        proof {
            lemma_value_step(digits, i - start);
            lemma_value_of_prefix(digits, i - start + 1);
        }
        let d: u32 = match hex_digit(bytes[i]) {
            Some(d) => d,
            None => {
                return None;
            },
        };
        if acc > (u32::MAX - d) / 16 {
            return None;
        }
        acc = acc * 16 + d;
        i += 1;
    }
    assert(digits.take(n - start) =~= digits);
    Some(acc)
}

/// Reads a hexadecimal number that is known to be well formed.
pub fn hex(s: &str) -> (value: u32)
    requires
        hex_text_value(s@) is Some,
    ensures
        hex_text_value(s@) == Some(value),
{
    parse_hex(s).unwrap()
}

} // verus!
