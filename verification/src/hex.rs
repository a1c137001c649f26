//! Text forms of numbers: two-character uppercase hexadecimal for a byte, and
//! decimal for offsets and column numbers.

use vstd::prelude::*;
use vstd::string::StringExecFns;

verus! {

/// The uppercase hexadecimal digit for a value below sixteen.
pub open spec fn hex_digit(n: int) -> char {
    if n == 0 {
        '0'
    } else if n == 1 {
        '1'
    } else if n == 2 {
        '2'
    } else if n == 3 {
        '3'
    } else if n == 4 {
        '4'
    } else if n == 5 {
        '5'
    } else if n == 6 {
        '6'
    } else if n == 7 {
        '7'
    } else if n == 8 {
        '8'
    } else if n == 9 {
        '9'
    } else if n == 10 {
        'A'
    } else if n == 11 {
        'B'
    } else if n == 12 {
        'C'
    } else if n == 13 {
        'D'
    } else if n == 14 {
        'E'
    } else {
        'F'
    }
}

/// The value of an uppercase hexadecimal digit; `None` for every other
/// character, lowercase letters included.
pub open spec fn hex_digit_value(c: char) -> Option<int> {
    if c == '0' {
        Some(0)
    } else if c == '1' {
        Some(1)
    } else if c == '2' {
        Some(2)
    } else if c == '3' {
        Some(3)
    } else if c == '4' {
        Some(4)
    } else if c == '5' {
        Some(5)
    } else if c == '6' {
        Some(6)
    } else if c == '7' {
        Some(7)
    } else if c == '8' {
        Some(8)
    } else if c == '9' {
        Some(9)
    } else if c == 'A' {
        Some(10)
    } else if c == 'B' {
        Some(11)
    } else if c == 'C' {
        Some(12)
    } else if c == 'D' {
        Some(13)
    } else if c == 'E' {
        Some(14)
    } else if c == 'F' {
        Some(15)
    } else {
        None
    }
}

/// Whether `c` is one of `0`..`9`, `A`..`F`.
pub open spec fn is_upper_hex(c: char) -> bool {
    hex_digit_value(c) is Some
}

/// The two characters that stand for a byte: high nibble, then low nibble.
pub open spec fn hex_pair(b: u8) -> Seq<char> {
    seq![hex_digit(b as int / 16), hex_digit(b as int % 16)]
}

/// The byte value that a two-character uppercase hexadecimal text stands for.
pub open spec fn hex_pair_value(s: Seq<char>) -> Option<int> {
    if s.len() == 2 {
        match (hex_digit_value(s[0]), hex_digit_value(s[1])) {
            (Some(hi), Some(lo)) => Some(16 * hi + lo),
            _ => None,
        }
    } else {
        None
    }
}

/// A digit read back gives the value it was written for.
pub proof fn lemma_hex_digit_round_trip(n: int)
    requires
        0 <= n < 16,
    ensures
        hex_digit_value(hex_digit(n)) == Some(n),
{
}

/// The text of a byte is two uppercase hexadecimal digits that read back as
/// that byte.
pub proof fn lemma_hex_round_trip(v: u8)
    ensures
        hex_pair(v).len() == 2,
        is_upper_hex(hex_pair(v)[0]),
        is_upper_hex(hex_pair(v)[1]),
        hex_pair_value(hex_pair(v)) == Some(v as int),
{
    lemma_hex_digit_round_trip(v as int / 16);
    lemma_hex_digit_round_trip(v as int % 16);
}

/// Different bytes have different texts.
pub proof fn lemma_hex_pair_injective(a: u8, b: u8)
    ensures
        (hex_pair(a) == hex_pair(b)) <==> a == b,
{
    lemma_hex_round_trip(a);
    lemma_hex_round_trip(b);
}

/// The digit for a value below sixteen, as a text of one character.
fn hex_digit_str(n: u8) -> (s: &'static str)
    requires
        n < 16,
    ensures
        s@ == seq![hex_digit(n as int)],
{
    proof {
        reveal_strlit("0");
        reveal_strlit("1");
        reveal_strlit("2");
        reveal_strlit("3");
        reveal_strlit("4");
        reveal_strlit("5");
        reveal_strlit("6");
        reveal_strlit("7");
        reveal_strlit("8");
        reveal_strlit("9");
        reveal_strlit("A");
        reveal_strlit("B");
        reveal_strlit("C");
        reveal_strlit("D");
        reveal_strlit("E");
        reveal_strlit("F");
    }
    let s: &'static str = match n {
        0 => "0",
        1 => "1",
        2 => "2",
        3 => "3",
        4 => "4",
        5 => "5",
        6 => "6",
        7 => "7",
        8 => "8",
        9 => "9",
        10 => "A",
        11 => "B",
        12 => "C",
        13 => "D",
        14 => "E",
        _ => "F",
    };
    assert(s@ =~= seq![hex_digit(n as int)]);
    s
}

/// Writes a byte as two uppercase hexadecimal digits, `0x0A` as `0A`.
pub fn byte_to_hex(b: u8) -> (s: String)
    ensures
        s@ == hex_pair(b),
{
    let mut s = String::from_str(hex_digit_str(b / 16));
    s.append(hex_digit_str(b % 16));
    assert(s@ =~= hex_pair(b));
    s
}

/// The decimal digit for a value below ten.
pub open spec fn decimal_digit(n: int) -> char {
    hex_digit(n)
}

/// The decimal text of a number, without leading zeros (`0` for zero).
pub open spec fn decimal_text(n: nat) -> Seq<char>
    decreases n,
{
    if n < 10 {
        seq![decimal_digit(n as int)]
    } else {
        decimal_text(n / 10).push(decimal_digit((n % 10) as int))
    }
}

/// `s` moved to the right end of a field of `width` characters, the left
/// filled with spaces; `s` itself where it is at least that long.
pub open spec fn right_aligned(s: Seq<char>, width: nat) -> Seq<char> {
    if s.len() >= width {
        s
    } else {
        Seq::new((width - s.len()) as nat, |i: int| ' ') + s
    }
}

/// Writes a number in decimal.
pub fn decimal_string(n: u128) -> (s: String)
    ensures
        s@ == decimal_text(n as nat),
    decreases n,
{
    if n < 10 {
        String::from_str(hex_digit_str(n as u8))
    } else {
        let mut s = decimal_string(n / 10);
        s.append(hex_digit_str((n % 10) as u8));
        s
    }
}

/// Writes a number in decimal, right-aligned in a field of `width` characters.
pub fn right_aligned_decimal(n: u128, width: usize) -> (s: String)
    ensures
        s@ == right_aligned(decimal_text(n as nat), width as nat),
{
    let digits = decimal_string(n);
    let len = digits.as_str().unicode_len();
    if len >= width {
        digits
    } else {
        let mut s = String::new();
        let pad: usize = width - len;
        let mut i: usize = 0;
        while i < pad
            invariant
                i <= pad,
                s@ == Seq::new(i as nat, |k: int| ' '),
            decreases pad - i,
        {
            proof {
                reveal_strlit(" ");
            }
            s.append(" ");
            i += 1;
            assert(s@ =~= Seq::new(i as nat, |k: int| ' '));
        }
        s.append(digits.as_str());
        s
    }
}

/// The heading of a column: its number in decimal, with a zero before a
/// single digit, then a space.
pub open spec fn column_header_text(col: nat) -> Seq<char> {
    if col < 10 {
        seq!['0', decimal_digit(col as int), ' ']
    } else {
        decimal_text(col).push(' ')
    }
}

/// Writes the heading of column `col`, `7` as `"07 "`.
pub fn column_header(col: usize) -> (s: String)
    ensures
        s@ == column_header_text(col as nat),
{
    proof {
        reveal_strlit("0");
        reveal_strlit(" ");
    }
    if col < 10 {
        let mut s = String::from_str("0");
        s.append(hex_digit_str(col as u8));
        s.append(" ");
        assert(s@ =~= column_header_text(col as nat));
        s
    } else {
        let mut s = decimal_string(col as u128);
        s.append(" ");
        assert(s@ =~= column_header_text(col as nat));
        s
    }
}

} // verus!
