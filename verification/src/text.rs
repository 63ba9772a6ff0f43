//! Numbers and bytes written out as text: decimal digits, and hexadecimal digits after `0x`.

use vstd::prelude::*;
use vstd::string::StringExecFns;

verus! {

/// The character that stands for `value` among the sixteen digits `0` to `9` and `a` to `f`.
pub open spec fn digit_char(value: u8) -> char {
    match value {
        0 => '0',
        1 => '1',
        2 => '2',
        3 => '3',
        4 => '4',
        5 => '5',
        6 => '6',
        7 => '7',
        8 => '8',
        9 => '9',
        10 => 'a',
        11 => 'b',
        12 => 'c',
        13 => 'd',
        14 => 'e',
        _ => 'f',
    }
}

/// The decimal digits of `number`, without leading zeros.
pub open spec fn decimal(number: nat) -> Seq<char>
    decreases number,
{
    if number < 10 {
        seq![digit_char(number as u8)]
    } else {
        decimal(number / 10).push(digit_char((number % 10) as u8))
    }
}

/// Two hexadecimal digits in lower case for each of `bytes`, in order.
pub open spec fn hex_digits(bytes: Seq<u8>) -> Seq<char>
    decreases bytes.len(),
{
    if bytes.len() == 0 {
        Seq::empty()
    } else {
        hex_digits(bytes.drop_last()).push(digit_char(bytes.last() / 16)).push(
            digit_char(bytes.last() % 16),
        )
    }
}

/// `bytes` written as `0x` and their hexadecimal digits.
pub open spec fn hex_text(bytes: Seq<u8>) -> Seq<char> {
    seq!['0', 'x'] + hex_digits(bytes)
}

/// The digit for `value` as a string of one character.
fn digit(value: u8) -> (text: &'static str)
    requires
        value < 16,
    ensures
        text@ == seq![digit_char(value)],
{
    proof {
        reveal_strlit("0");
        reveal_strlit("1");
        reveal_strlit("2");
        reveal_strlit("3");
        reveal_strlit("4");
        reveal_strlit("5");
        reveal_strlit("6");
        reveal_strlit("7");
        reveal_strlit("8");
        reveal_strlit("9");
        reveal_strlit("a");
        reveal_strlit("b");
        reveal_strlit("c");
        reveal_strlit("d");
        reveal_strlit("e");
        reveal_strlit("f");
    }
    let text = match value {
        0 => "0",
        1 => "1",
        2 => "2",
        3 => "3",
        4 => "4",
        5 => "5",
        6 => "6",
        7 => "7",
        8 => "8",
        9 => "9",
        10 => "a",
        11 => "b",
        12 => "c",
        13 => "d",
        14 => "e",
        _ => "f",
    };
    assert(text@ =~= seq![digit_char(value)]);
    text
}

/// Writes the decimal digits of `number` at the end of `out`.
fn write_decimal(out: &mut String, number: u64)
    ensures
        final(out)@ == old(out)@ + decimal(number as nat),
    decreases number,
{
    if number >= 10 {
        write_decimal(out, number / 10);
    }
    out.append(digit((number % 10) as u8));
}

/// `number` in decimal digits.
pub fn decimal_text(number: u64) -> (text: String)
    ensures
        text@ == decimal(number as nat),
{
    let mut text = String::new();
    write_decimal(&mut text, number);
    text
}

/// `bytes` written as `0x` and two hexadecimal digits in lower case for each byte.
pub fn hex_string(bytes: &[u8]) -> (text: String)
    ensures
        text@ == hex_text(bytes@),
{
    proof {
        reveal_strlit("0x");
    }
    let mut text = String::new();
    text.append("0x");
    let mut i: usize = 0;
    while i < bytes.len()
        invariant
            i <= bytes.len(),
            text@ == hex_text(bytes@.take(i as int)),
        decreases bytes.len() - i,
    {
        let byte = bytes[i];
        text.append(digit(byte / 16));
        text.append(digit(byte % 16));
        proof {
            assert(bytes@.take(i + 1).drop_last() == bytes@.take(i as int));
        }
        i += 1;
    }
    proof {
        assert(bytes@.take(bytes@.len() as int) == bytes@);
    }
    text
}

/// Ten to the power of `exponent`.
pub open spec fn pow10(exponent: nat) -> nat
    decreases exponent,
{
    if exponent == 0 {
        1
    } else {
        10 * pow10((exponent - 1) as nat)
    }
}

/// A number below ten to the power of `digits` has at most `digits` decimal digits.
pub proof fn lemma_decimal_len(number: nat, digits: nat)
    requires
        digits >= 1,
        number < pow10(digits),
    ensures
        1 <= decimal(number).len() <= digits,
    decreases number,
{
    if number >= 10 {
        assert(pow10(1) == 10) by {
            assert(pow10(0) == 1);
        }
        lemma_decimal_len(number / 10, (digits - 1) as nat);
    }
}

/// There are two hexadecimal digits for each byte.
pub proof fn lemma_hex_digits_len(bytes: Seq<u8>)
    ensures
        hex_digits(bytes).len() == 2 * bytes.len(),
    decreases bytes.len(),
{
    if bytes.len() > 0 {
        lemma_hex_digits_len(bytes.drop_last());
    }
}

} // verus!
