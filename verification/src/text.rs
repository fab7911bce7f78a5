//! Numbers as text: upper-case hexadecimal and decimal digits.

use vstd::prelude::*;
use vstd::string::StringExecFns;

verus! {

/// The upper-case hexadecimal digit for `n`.
pub open spec fn hex_digit(n: int) -> char {
    if n == 0 {
        '0'
    } else if n == 1 {
        '1'
    } else if n == 2 {
        '2'
    } else if n == 3 {
        '3'
    } else if n == 4 {
        '4'
    } else if n == 5 {
        '5'
    } else if n == 6 {
        '6'
    } else if n == 7 {
        '7'
    } else if n == 8 {
        '8'
    } else if n == 9 {
        '9'
    } else if n == 10 {
        'A'
    } else if n == 11 {
        'B'
    } else if n == 12 {
        'C'
    } else if n == 13 {
        'D'
    } else if n == 14 {
        'E'
    } else {
        'F'
    }
}

/// `value` in exactly `digits` upper-case hexadecimal digits, the most
/// significant first. Higher digits are dropped.
pub open spec fn hex_fixed(value: nat, digits: nat) -> Seq<char>
    decreases digits,
{
    if digits == 0 {
        Seq::empty()
    } else {
        hex_fixed(value / 16, (digits - 1) as nat).push(hex_digit(value as int % 16))
    }
}

/// `value` in upper-case hexadecimal digits without leading zeros; zero is `0`.
pub open spec fn hex_upper(value: nat) -> Seq<char>
    decreases value,
{
    if value < 16 {
        seq![hex_digit(value as int)]
    } else {
        hex_upper(value / 16).push(hex_digit(value as int % 16))
    }
}

/// `value` in decimal digits without leading zeros; zero is `0`.
pub open spec fn decimal(value: nat) -> Seq<char>
    decreases value,
{
    if value < 10 {
        seq![hex_digit(value as int)]
    } else {
        decimal(value / 10).push(hex_digit(value as int % 10))
    }
}

/// The digit `n` as text.
pub fn digit_str(n: u8) -> (s: &'static str)
    requires
        n < 16,
    ensures
        s@ == seq![hex_digit(n as int)],
{
    proof {
        reveal_strlit("0");
        reveal_strlit("1");
        reveal_strlit("2");
        reveal_strlit("3");
        reveal_strlit("4");
        reveal_strlit("5");
        reveal_strlit("6");
        reveal_strlit("7");
        reveal_strlit("8");
        reveal_strlit("9");
        reveal_strlit("A");
        reveal_strlit("B");
        reveal_strlit("C");
        reveal_strlit("D");
        reveal_strlit("E");
        reveal_strlit("F");
    }
    let s = match n {
        0 => "0",
        1 => "1",
        2 => "2",
        3 => "3",
        4 => "4",
        5 => "5",
        6 => "6",
        7 => "7",
        8 => "8",
        9 => "9",
        10 => "A",
        11 => "B",
        12 => "C",
        13 => "D",
        14 => "E",
        _ => "F",
    };
    assert(s@ =~= seq![hex_digit(n as int)]);
    s
}

/// Appends `value` in exactly `digits` hexadecimal digits to `out`.
pub fn push_hex_fixed(out: &mut String, value: u64, digits: u8)
    ensures
        final(out)@ == old(out)@ + hex_fixed(value as nat, digits as nat),
    decreases digits,
{
    if digits > 0 {
        push_hex_fixed(out, value / 16, digits - 1);
        out.append(digit_str((value % 16) as u8));
        assert(out@ =~= old(out)@ + hex_fixed(value as nat, digits as nat));
    } else {
        assert(out@ =~= old(out)@ + hex_fixed(value as nat, digits as nat));
    }
}

/// Appends `value` in hexadecimal digits without leading zeros to `out`.
pub fn push_hex_upper(out: &mut String, value: u64)
    ensures
        final(out)@ == old(out)@ + hex_upper(value as nat),
    decreases value,
{
    if value >= 16 {
        push_hex_upper(out, value / 16);
    }
    out.append(digit_str((value % 16) as u8));
    assert(out@ =~= old(out)@ + hex_upper(value as nat));
}

/// Appends `value` in decimal digits without leading zeros to `out`.
pub fn push_decimal(out: &mut String, value: u64)
    ensures
        final(out)@ == old(out)@ + decimal(value as nat),
    decreases value,
{
    if value >= 10 {
        push_decimal(out, value / 10);
    }
    out.append(digit_str((value % 10) as u8));
    assert(out@ =~= old(out)@ + decimal(value as nat));
}

/// The value of the character `c` as a digit in base `radix`, where it is one.
/// Letters count as digits above nine in either case.
pub open spec fn digit_value(c: char, radix: nat) -> Option<nat> {
    let v: int = if '0' <= c <= '9' {
        c as int - '0' as int
    } else if 'a' <= c <= 'z' {
        c as int - 'a' as int + 10
    } else if 'A' <= c <= 'Z' {
        c as int - 'A' as int + 10
    } else {
        36
    };
    if v < radix {
        Some(v as nat)
    } else {
        None
    }
}

/// The number that the digits `s` spell in base `radix`; `None` where `s` is
/// empty or holds something else than digits.
pub open spec fn digits_value(s: Seq<char>, radix: nat) -> Option<nat>
    decreases s.len(),
{
    if s.len() == 0 {
        None
    } else if s.len() == 1 {
        digit_value(s[0], radix)
    } else {
        match (digits_value(s.drop_last(), radix), digit_value(s.last(), radix)) {
            (Some(high), Some(low)) => Some(high * radix + low),
            _ => None,
        }
    }
}

/// The unsigned 64-bit number that `s` spells in base `radix`: digits, which
/// a plus sign may precede. `None` where `s` is not of this form or the number does not fit.
pub open spec fn parsed_u64(s: Seq<char>, radix: nat) -> Option<u64> {
    let digits = if s.len() > 0 && s[0] == '+' {
        s.subrange(1, s.len() as int)
    } else {
        s
    };
    match digits_value(digits, radix) {
        Some(v) => if v <= u64::MAX {
            Some(v as u64)
        } else {
            None
        },
        None => None,
    }
}

/// The value of `c` as a digit in base `radix`.
pub fn char_digit(c: char, radix: u8) -> (r: Option<u8>)
    requires
        radix <= 36,
    ensures
        match r {
            Some(v) => digit_value(c, radix as nat) == Some(v as nat) && v < radix,
            None => digit_value(c, radix as nat) is None,
        },
{
    let v: u32 = if '0' <= c && c <= '9' {
        (c as u32) - ('0' as u32)
    } else if 'a' <= c && c <= 'z' {
        (c as u32) - ('a' as u32) + 10
    } else if 'A' <= c && c <= 'Z' {
        (c as u32) - ('A' as u32) + 10
    } else {
        36
    };
    if v < radix as u32 {
        Some(v as u8)
    } else {
        None
    }
}

/// A number only grows when digits are appended.
proof fn lemma_digits_grow(s: Seq<char>, radix: nat, n: int)
    requires
        0 < n <= s.len(),
        radix >= 2,
        digits_value(s, radix) is Some,
    ensures
        digits_value(s.subrange(0, n), radix) is Some,
        digits_value(s.subrange(0, n), radix)->0 <= digits_value(s, radix)->0,
    decreases s.len(),
{
    if n == s.len() {
        assert(s.subrange(0, n) =~= s);
    } else {
        assert(s.drop_last().subrange(0, n) =~= s.subrange(0, n));
        lemma_digits_grow(s.drop_last(), radix, n);
        let high = digits_value(s.drop_last(), radix)->0;
        assert(high <= high * radix) by (nonlinear_arith)
            requires
                radix >= 2,
        ;
    }
}

/// Where a part of `s` is not a number, `s` is none.
proof fn lemma_digits_prefix_none(s: Seq<char>, radix: nat, n: int)
    requires
        0 < n <= s.len(),
        digits_value(s.subrange(0, n), radix) is None,
    ensures
        digits_value(s, radix) is None,
    decreases s.len(),
{
    if n == s.len() {
        assert(s.subrange(0, n) =~= s);
    } else {
        assert(s.drop_last().subrange(0, n) =~= s.subrange(0, n));
        lemma_digits_prefix_none(s.drop_last(), radix, n);
    }
}

/// Reads `s` as an unsigned 64-bit number in base `radix`.
pub fn parse_u64(s: &str, radix: u8) -> (r: Option<u64>)
    requires
        2 <= radix <= 36,
    ensures
        r == parsed_u64(s@, radix as nat),
{
    let len: usize = s.unicode_len();
    let start: usize = if len > 0 && s.get_char(0) == '+' {
        1
    } else {
        0
    };
    if start == len {
        assert(s@.subrange(start as int, len as int).len() == 0);
        assert(start == 0 ==> s@.subrange(0, len as int) =~= s@);
        return None;
    }
    let ghost digits = if start == 1 {
        s@.subrange(1, len as int)
    } else {
        s@
    };
    let mut value: u64 = 0;
    let mut i: usize = start;
    while i < len
        invariant
            start <= i <= len,
            start < len,
            len == s@.len(),
            digits.len() == len - start,
            forall|j: int| 0 <= j < digits.len() ==> digits[j] == s@[start + j],
            (start == 1) == (s@.len() > 0 && s@[0] == '+'),
            digits == if start == 1 {
                s@.subrange(1, len as int)
            } else {
                s@
            },
            2 <= radix <= 36,
            i > start ==> digits_value(digits.subrange(0, i - start), radix as nat) == Some(
                value as nat,
            ),
            i == start ==> value == 0,
        decreases len - i,
    {
        let c = s.get_char(i);
        let ghost part = digits.subrange(0, i + 1 - start);
        proof {
            assert(part.last() == c);
            assert(part.drop_last() =~= digits.subrange(0, i - start));
        }
        let d = match char_digit(c, radix) {
            Some(d) => d,
            None => {
                proof {
                    assert(digits_value(part, radix as nat) is None);
                    lemma_digits_prefix_none(digits, radix as nat, i + 1 - start);
                }
                return None;
            },
        };
        let next = match value.checked_mul(radix as u64) {
            Some(scaled) => scaled.checked_add(d as u64),
            None => None,
        };
        match next {
            Some(v) => {
                value = v;
            },
            None => {
                proof {
                    let total = if i == start {
                        d as nat
                    } else {
                        value as nat * radix as nat + d as nat
                    };
                    assert(digits_value(part, radix as nat) == Some(total));
                    assert(total > u64::MAX);
                    if digits_value(digits, radix as nat) is Some {
                        lemma_digits_grow(digits, radix as nat, i + 1 - start);
                    }
                }
                return None;
            },
        }
        i = i + 1;
    }
    proof {
        assert(digits.subrange(0, len - start) =~= digits);
    }
    Some(value)
}

} // verus!
