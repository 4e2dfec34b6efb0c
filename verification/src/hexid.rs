//! Hash ids written as hexadecimal text (`"DF902143"` is the `u32` `0xDF902143`).
use vstd::prelude::*;

verus! {

/// The value of a hexadecimal digit (`0-9`, `a-f`, `A-F`), or -1 for any other character.
pub open spec fn hex_digit(c: char) -> int {
    if '0' <= c && c <= '9' {
        c as int - '0' as int
    } else if 'a' <= c && c <= 'f' {
        c as int - 'a' as int + 10
    } else if 'A' <= c && c <= 'F' {
        c as int - 'A' as int + 10
    } else {
        -1
    }
}

/// Every character of `s` is a hexadecimal digit.
pub open spec fn all_hex_digits(s: Seq<char>) -> bool {
    forall|i: int| 0 <= i < s.len() ==> hex_digit(#[trigger] s[i]) >= 0
}

/// The number that the hexadecimal digits `s` spell, most significant first.
pub open spec fn hex_number(s: Seq<char>) -> int
    decreases s.len(),
{
    if s.len() == 0 {
        0
    } else {
        hex_number(s.drop_last()) * 16 + hex_digit(s.last())
    }
}

/// What `u32::from_str_radix(s, 16)` accepts: an optional `+` sign followed by at least
/// one hexadecimal digit and nothing else, spelling a value that fits in a `u32`.
pub open spec fn radix16_u32(s: Seq<char>) -> Option<u32> {
    let digits = if s.len() > 0 && s[0] == '+' {
        s.drop_first()
    } else {
        s
    };
    if digits.len() > 0 && all_hex_digits(digits) && hex_number(digits) <= u32::MAX {
        Some(hex_number(digits) as u32)
    } else {
        None
    }
}

/// The id that the text `s` names: its hexadecimal value, or 0 where it is not one.
pub open spec fn hex_value(s: Seq<char>) -> u32 {
    match radix16_u32(s) {
        Some(v) => v,
        None => 0,
    }
}

/// Calls `u32::from_str_radix(s, 16)` and keeps the value where it succeeds.
/// Its documentation states what is accepted: an optional `+`, then only digits of the
/// radix (`0-9`, `a-z`, `A-Z` as far as the radix allows), an empty or overflowing string
/// being an error; the contract says that through `radix16_u32`.
#[verifier::external_body]
fn from_str_radix16(s: &str) -> (r: Option<u32>)
    ensures
        r == radix16_u32(s@),
{
    u32::from_str_radix(s, 16).ok()
}

/// The id that the text `s` names, 0 where it does not parse.
pub fn hex(s: &str) -> (v: u32)
    ensures
        v == hex_value(s@),
{
    match from_str_radix16(s) {
        Some(v) => v,
        None => 0,
    }
}

/// Reading one more digit multiplies by 16 and adds that digit.
proof fn lemma_hex_number_step(s: Seq<char>, k: int)
    requires
        0 <= k < s.len(),
    ensures
        hex_number(s.take(k + 1)) == hex_number(s.take(k)) * 16 + hex_digit(s[k]),
{
    assert(s.take(k + 1).drop_last() =~= s.take(k));
}

/// The value of eight hexadecimal digits.
pub proof fn lemma_hex_value_8(s: Seq<char>)
    requires
        s.len() == 8,
        all_hex_digits(s),
    ensures
        hex_value(s) == hex_digit(s[0]) * 0x1000_0000 + hex_digit(s[1]) * 0x100_0000 + hex_digit(s[2])
            * 0x10_0000 + hex_digit(s[3]) * 0x1_0000 + hex_digit(s[4]) * 0x1000 + hex_digit(s[5])
            * 0x100 + hex_digit(s[6]) * 0x10 + hex_digit(s[7]),
{
    assert(s.take(0).len() == 0);
    lemma_hex_number_step(s, 0);
    lemma_hex_number_step(s, 1);
    lemma_hex_number_step(s, 2);
    lemma_hex_number_step(s, 3);
    lemma_hex_number_step(s, 4);
    lemma_hex_number_step(s, 5);
    lemma_hex_number_step(s, 6);
    lemma_hex_number_step(s, 7);
    assert(s.take(8) =~= s);
    assert(hex_digit(s[0]) >= 0 && hex_digit(s[1]) >= 0 && hex_digit(s[2]) >= 0 && hex_digit(s[3]) >= 0);
    assert(hex_digit(s[4]) >= 0 && hex_digit(s[5]) >= 0 && hex_digit(s[6]) >= 0 && hex_digit(s[7]) >= 0);
    assert(hex_digit(s[0]) <= 15 && hex_digit(s[1]) <= 15 && hex_digit(s[2]) <= 15 && hex_digit(s[3]) <= 15);
    assert(hex_digit(s[4]) <= 15 && hex_digit(s[5]) <= 15 && hex_digit(s[6]) <= 15 && hex_digit(s[7]) <= 15);
    assert(s[0] != '+');
}

/// The digit for `d` (0 to 15), upper or lower case.
pub open spec fn hex_char(d: int, upper: bool) -> char {
    if d == 0 {
        '0'
    } else if d == 1 {
        '1'
    } else if d == 2 {
        '2'
    } else if d == 3 {
        '3'
    } else if d == 4 {
        '4'
    } else if d == 5 {
        '5'
    } else if d == 6 {
        '6'
    } else if d == 7 {
        '7'
    } else if d == 8 {
        '8'
    } else if d == 9 {
        '9'
    } else if d == 10 {
        if upper {
            'A'
        } else {
            'a'
        }
    } else if d == 11 {
        if upper {
            'B'
        } else {
            'b'
        }
    } else if d == 12 {
        if upper {
            'C'
        } else {
            'c'
        }
    } else if d == 13 {
        if upper {
            'D'
        } else {
            'd'
        }
    } else if d == 14 {
        if upper {
            'E'
        } else {
            'e'
        }
    } else if d == 15 {
        if upper {
            'F'
        } else {
            'f'
        }
    } else {
        '?'
    }
}

/// `x` divided by 16, `k` times.
pub open spec fn quot16(x: int, k: nat) -> int
    decreases k,
{
    if k == 0 {
        x
    } else {
        quot16(x, (k - 1) as nat) / 16
    }
}

/// The `k`-th hexadecimal digit of `x`, counting from the least significant.
pub open spec fn nibble(x: int, k: nat) -> int {
    quot16(x, k) % 16
}

/// `x` written as eight hexadecimal digits, most significant first, as `{:08X}` (or,
/// in lower case, `{:08x}`) formats a `u32`.
pub open spec fn hex_text8(x: u32, upper: bool) -> Seq<char> {
    seq![
        hex_char(nibble(x as int, 7), upper),
        hex_char(nibble(x as int, 6), upper),
        hex_char(nibble(x as int, 5), upper),
        hex_char(nibble(x as int, 4), upper),
        hex_char(nibble(x as int, 3), upper),
        hex_char(nibble(x as int, 2), upper),
        hex_char(nibble(x as int, 1), upper),
        hex_char(nibble(x as int, 0), upper),
    ]
}

/// A digit's character reads back as the digit.
proof fn lemma_hex_char(d: int, upper: bool)
    requires
        0 <= d < 16,
    ensures
        hex_digit(hex_char(d, upper)) == d,
{
}

/// One more division by 16 splits off the next digit.
proof fn lemma_quot16_step(x: int, k: nat)
    requires
        x >= 0,
    ensures
        quot16(x, k) == 16 * quot16(x, k + 1) + nibble(x, k),
        0 <= nibble(x, k) < 16,
        quot16(x, k + 1) >= 0,
        quot16(x, k) >= 0,
    decreases k,
{
    if k > 0 {
        lemma_quot16_step(x, (k - 1) as nat);
    }
    vstd::arithmetic::div_mod::lemma_fundamental_div_mod(quot16(x, k), 16);
    vstd::arithmetic::div_mod::lemma_mod_bound(quot16(x, k), 16);
    vstd::arithmetic::div_mod::lemma_div_pos_is_pos(quot16(x, k), 16);
}

/// Any `u32` written as eight hexadecimal digits reads back as itself.
pub proof fn lemma_hex_text8_roundtrip(x: u32, upper: bool)
    ensures
        hex_value(hex_text8(x, upper)) == x,
{
    let v = x as int;
    lemma_quot16_step(v, 0);
    lemma_quot16_step(v, 1);
    lemma_quot16_step(v, 2);
    lemma_quot16_step(v, 3);
    lemma_quot16_step(v, 4);
    lemma_quot16_step(v, 5);
    lemma_quot16_step(v, 6);
    lemma_quot16_step(v, 7);
    assert(quot16(v, 8) == 0);
    let t = hex_text8(x, upper);
    lemma_hex_char(nibble(v, 0), upper);
    lemma_hex_char(nibble(v, 1), upper);
    lemma_hex_char(nibble(v, 2), upper);
    lemma_hex_char(nibble(v, 3), upper);
    lemma_hex_char(nibble(v, 4), upper);
    lemma_hex_char(nibble(v, 5), upper);
    lemma_hex_char(nibble(v, 6), upper);
    lemma_hex_char(nibble(v, 7), upper);
    assert(all_hex_digits(t));
    lemma_hex_value_8(t);
}

} // verus!
