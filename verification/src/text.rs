//! Text building blocks shared by identifiers, literals and generated
//! source: decimal and hexadecimal digits and joined paths.

use vstd::prelude::*;

verus! {

/// The character of a digit below sixteen, lower case.
pub open spec fn digit_char(d: nat) -> char {
    if d == 0 {
        '0'
    } else if d == 1 {
        '1'
    } else if d == 2 {
        '2'
    } else if d == 3 {
        '3'
    } else if d == 4 {
        '4'
    } else if d == 5 {
        '5'
    } else if d == 6 {
        '6'
    } else if d == 7 {
        '7'
    } else if d == 8 {
        '8'
    } else if d == 9 {
        '9'
    } else if d == 10 {
        'a'
    } else if d == 11 {
        'b'
    } else if d == 12 {
        'c'
    } else if d == 13 {
        'd'
    } else if d == 14 {
        'e'
    } else {
        'f'
    }
}

/// The decimal numeral of `n`, without leading zeros.
pub open spec fn decimal_text(n: nat) -> Seq<char>
    decreases n,
{
    if n < 10 {
        seq![digit_char(n)]
    } else {
        decimal_text(n / 10).push(digit_char(n % 10))
    }
}

/// The lowest `digits` hexadecimal digits of `v`, most significant first.
pub open spec fn hex_text(v: nat, digits: nat) -> Seq<char>
    decreases digits,
{
    if digits == 0 {
        Seq::empty()
    } else {
        hex_text(v / 16, (digits - 1) as nat).push(digit_char(v % 16))
    }
}

/// A path extended by one more component.
pub open spec fn joined(lhs: Seq<char>, rhs: Seq<char>) -> Seq<char> {
    lhs + seq!['_'] + rhs
}

/// `hex_text` yields exactly as many characters as it is asked for.
pub proof fn lemma_hex_text_len(v: nat, digits: nat)
    ensures
        hex_text(v, digits).len() == digits,
    decreases digits,
{
    if digits > 0 {
        lemma_hex_text_len(v / 16, (digits - 1) as nat);
    }
}

/// The one-character string of a digit below sixteen.
pub fn digit_str(d: u8) -> (r: &'static str)
    requires
        d < 16,
    ensures
        r@ == seq![digit_char(d as nat)],
{
    proof {
        reveal_strlit("0");
        reveal_strlit("1");
        reveal_strlit("2");
        reveal_strlit("3");
        reveal_strlit("4");
        reveal_strlit("5");
        reveal_strlit("6");
        reveal_strlit("7");
        reveal_strlit("8");
        reveal_strlit("9");
        reveal_strlit("a");
        reveal_strlit("b");
        reveal_strlit("c");
        reveal_strlit("d");
        reveal_strlit("e");
        reveal_strlit("f");
    }
    let r: &'static str = if d == 0 {
        "0"
    } else if d == 1 {
        "1"
    } else if d == 2 {
        "2"
    } else if d == 3 {
        "3"
    } else if d == 4 {
        "4"
    } else if d == 5 {
        "5"
    } else if d == 6 {
        "6"
    } else if d == 7 {
        "7"
    } else if d == 8 {
        "8"
    } else if d == 9 {
        "9"
    } else if d == 10 {
        "a"
    } else if d == 11 {
        "b"
    } else if d == 12 {
        "c"
    } else if d == 13 {
        "d"
    } else if d == 14 {
        "e"
    } else {
        "f"
    };
    r
}

/// Appends the decimal numeral of `n` to `out`.
pub fn push_decimal(out: &mut String, n: u64)
    ensures
        final(out)@ == old(out)@ + decimal_text(n as nat),
    decreases n,
{
    if n < 10 {
        out.append(digit_str(n as u8));
    } else {
        push_decimal(out, n / 10);
        out.append(digit_str((n % 10) as u8));
    }
}

/// The number that a decimal numeral stands for.
pub open spec fn decimal_value(s: Seq<char>) -> nat
    decreases s.len(),
{
    if s.len() == 0 {
        0
    } else {
        decimal_value(s.drop_last()) * 10 + digit_value(s.last())
    }
}

/// The number that a decimal digit stands for.
pub open spec fn digit_value(c: char) -> nat {
    if c == '1' {
        1
    } else if c == '2' {
        2
    } else if c == '3' {
        3
    } else if c == '4' {
        4
    } else if c == '5' {
        5
    } else if c == '6' {
        6
    } else if c == '7' {
        7
    } else if c == '8' {
        8
    } else if c == '9' {
        9
    } else {
        0
    }
}

/// A decimal numeral stands for the number it was written for.
pub proof fn lemma_decimal_value(n: nat)
    ensures
        decimal_value(decimal_text(n)) == n,
        decimal_text(n).len() > 0,
    decreases n,
{
    if n < 10 {
        let s = seq![digit_char(n)];
        assert(decimal_value(s.drop_last()) == 0);
    } else {
        lemma_decimal_value(n / 10);
        let s = decimal_text(n / 10).push(digit_char(n % 10));
        assert(s.drop_last() =~= decimal_text(n / 10));
    }
}

/// Two numbers have two numerals.
pub proof fn law_decimal_is_injective(m: nat, n: nat)
    requires
        decimal_text(m) == decimal_text(n),
    ensures
        m == n,
{
    lemma_decimal_value(m);
    lemma_decimal_value(n);
}

/// A decimal numeral holds no underscore.
pub proof fn lemma_decimal_has_no_underscore(n: nat, i: int)
    requires
        0 <= i < decimal_text(n).len(),
    ensures
        decimal_text(n)[i] != '_',
    decreases n,
{
    if n >= 10 {
        if i < decimal_text(n / 10).len() {
            lemma_decimal_has_no_underscore(n / 10, i);
        }
    }
}

/// Sixteen to the power of `e`.
pub open spec fn pow16(e: nat) -> nat
    decreases e,
{
    if e == 0 {
        1
    } else {
        16 * pow16((e - 1) as nat)
    }
}

/// The number that a hexadecimal numeral stands for.
pub open spec fn hex_value(s: Seq<char>) -> nat
    decreases s.len(),
{
    if s.len() == 0 {
        0
    } else {
        hex_value(s.drop_last()) * 16 + hex_digit_value(s.last())
    }
}

/// The number that a hexadecimal digit stands for.
pub open spec fn hex_digit_value(c: char) -> nat {
    if c == 'a' {
        10
    } else if c == 'b' {
        11
    } else if c == 'c' {
        12
    } else if c == 'd' {
        13
    } else if c == 'e' {
        14
    } else if c == 'f' {
        15
    } else {
        digit_value(c)
    }
}

/// A power of sixteen is positive.
pub proof fn lemma_pow16_positive(e: nat)
    ensures
        pow16(e) > 0,
    decreases e,
{
    if e > 0 {
        lemma_pow16_positive((e - 1) as nat);
    }
}

/// The digits of a number stand for the number, as far as they go.
pub proof fn lemma_hex_value(v: nat, digits: nat)
    ensures
        hex_value(hex_text(v, digits)) == v % pow16(digits),
    decreases digits,
{
    if digits > 0 {
        let rest = (digits - 1) as nat;
        lemma_hex_value(v / 16, rest);
        lemma_pow16_positive(rest);
        let s = hex_text(v / 16, rest).push(digit_char(v % 16));
        assert(s.drop_last() =~= hex_text(v / 16, rest));
        vstd::arithmetic::div_mod::lemma_breakdown(v as int, 16, pow16(rest) as int);
    }
}

/// The first `m` of the `digits` lowest digits of a number are the lowest
/// digits of the number without its `digits - m` lowest digits.
pub proof fn lemma_hex_prefix(v: nat, digits: nat, m: nat)
    requires
        m <= digits,
    ensures
        hex_text(v, digits).len() == digits,
        hex_text(v, digits).subrange(0, m as int) == hex_text(
            v / pow16((digits - m) as nat),
            m,
        ),
    decreases digits,
{
    lemma_hex_text_len(v, digits);
    if m == digits {
        assert(v / 1 == v);
    } else {
        let rest = (digits - 1) as nat;
        lemma_hex_prefix(v / 16, rest, m);
        lemma_hex_text_len(v / 16, rest);
        let shorter = pow16((rest - m) as nat);
        lemma_pow16_positive((rest - m) as nat);
        vstd::arithmetic::div_mod::lemma_div_denominator(v as int, 16, shorter as int);
    }
}

} // verus!
