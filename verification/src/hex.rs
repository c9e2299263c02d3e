//! Uppercase hexadecimal numerals.

use vstd::prelude::*;

verus! {

/// The character that stands for the digit `d`, for `d` below sixteen.
pub open spec fn hex_digit(d: nat) -> char {
    "0123456789ABCDEF"@[d as int]
}

/// The numeral of `n` in base sixteen: most significant digit first, digits
/// above nine written as `A` to `F`, and no leading zero except for zero itself.
pub open spec fn hex_upper(n: nat) -> Seq<char>
    decreases n,
{
    if n < 16 {
        seq![hex_digit(n)]
    } else {
        hex_upper(n / 16).push(hex_digit(n % 16))
    }
}

/// Whether `c` is one of `0` to `9` or `A` to `F`.
pub open spec fn is_hex_upper_char(c: char) -> bool {
    ('0' <= c && c <= '9') || ('A' <= c && c <= 'F')
}

/// The digit that `c` stands for.
pub open spec fn digit_value(c: char) -> nat {
    if '0' <= c && c <= '9' {
        (c as int - '0' as int) as nat
    } else {
        (c as int - 'A' as int + 10) as nat
    }
}

/// The number that a numeral stands for, most significant digit first.
pub open spec fn numeral_value(digits: Seq<char>) -> nat
    decreases digits.len(),
{
    if digits.len() == 0 {
        0
    } else {
        16 * numeral_value(digits.drop_last()) + digit_value(digits.last())
    }
}

/// Sixteen to the power `k`.
pub open spec fn pow16(k: nat) -> nat
    decreases k,
{
    if k == 0 {
        1
    } else {
        16 * pow16((k - 1) as nat)
    }
}

/// A digit's character is an uppercase hexadecimal character and stands for
/// the digit; only the digit zero is written `0`.
pub proof fn lemma_hex_digit(d: nat)
    requires
        d < 16,
    ensures
        is_hex_upper_char(hex_digit(d)),
        digit_value(hex_digit(d)) == d,
        hex_digit(d) == '0' <==> d == 0,
{
    reveal_strlit("0123456789ABCDEF");
}

/// A numeral has at least one character, and all of them are uppercase
/// hexadecimal characters: there is no sign, no prefix and no lowercase letter.
pub proof fn lemma_hex_upper_chars(n: nat)
    ensures
        hex_upper(n).len() >= 1,
        forall|i: int| 0 <= i < hex_upper(n).len() ==> is_hex_upper_char(#[trigger] hex_upper(n)[i]),
    decreases n,
{
    if n < 16 {
        lemma_hex_digit(n);
    } else {
        lemma_hex_upper_chars(n / 16);
        lemma_hex_digit(n % 16);
    }
}

/// A numeral stands for the number it was made of.
pub proof fn lemma_hex_upper_value(n: nat)
    ensures
        numeral_value(hex_upper(n)) == n,
    decreases n,
{
    if n < 16 {
        lemma_hex_digit(n);
        assert(hex_upper(n).drop_last() =~= Seq::<char>::empty());
        assert(numeral_value(hex_upper(n).drop_last()) == 0);
    } else {
        lemma_hex_upper_value(n / 16);
        lemma_hex_digit(n % 16);
        assert(hex_upper(n).drop_last() =~= hex_upper(n / 16));
    }
}

/// The numeral of a number other than zero does not start with `0`; the
/// numeral of zero is the single character `0`.
pub proof fn lemma_hex_upper_no_padding(n: nat)
    ensures
        n == 0 ==> hex_upper(n) == seq!['0'],
        n > 0 ==> hex_upper(n)[0] != '0',
    decreases n,
{
    if n < 16 {
        lemma_hex_digit(n);
    } else {
        lemma_hex_upper_no_padding(n / 16);
        lemma_hex_upper_chars(n / 16);
    }
}

/// A number below sixteen to the power `k` has a numeral of at most `k`
/// characters.
pub proof fn lemma_hex_upper_len(n: nat, k: nat)
    requires
        k >= 1,
        n < pow16(k),
    ensures
        hex_upper(n).len() <= k,
    decreases k,
{
    if n >= 16 {
        assert(pow16(1) == 16) by {
            reveal_with_fuel(pow16, 2);
        }
        lemma_hex_upper_len(n / 16, (k - 1) as nat);
    }
}

/// The numeral of a 32-bit number has one to eight characters.
pub proof fn lemma_hex_upper_len_u32(n: u32)
    ensures
        1 <= hex_upper(n as nat).len() <= 8,
{
    assert(pow16(8) == 0x1_0000_0000) by {
        reveal_with_fuel(pow16, 9);
    }
    lemma_hex_upper_len(n as nat, 8);
    lemma_hex_upper_chars(n as nat);
}

/// The one-character text of the digit `d`.
fn digit_text(d: u32) -> (text: &'static str)
    requires
        d < 16,
    ensures
        text@ == seq![hex_digit(d as nat)],
{
    proof {
        reveal_strlit("0123456789ABCDEF");
    }
    "0123456789ABCDEF".substring_ascii(d as usize, d as usize + 1)
}

/// Appends the hexadecimal numeral of `n` to `out`.
pub fn push_hex_upper(out: &mut String, n: u32)
    ensures
        final(out)@ == old(out)@ + hex_upper(n as nat),
    decreases n,
{
    if n >= 16 {
        push_hex_upper(out, n / 16);
    }
    out.append(digit_text(n % 16));
}

} // verus!
