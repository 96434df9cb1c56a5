//! Decimal numerals: writing a number as text and reading a count from
//! text.

use vstd::prelude::*;
use vstd::string::*;

verus! {

/// The decimal digit `d` as a character.
pub open spec fn digit_char(d: nat) -> char {
    if d == 0 {
        '0'
    } else if d == 1 {
        '1'
    } else if d == 2 {
        '2'
    } else if d == 3 {
        '3'
    } else if d == 4 {
        '4'
    } else if d == 5 {
        '5'
    } else if d == 6 {
        '6'
    } else if d == 7 {
        '7'
    } else if d == 8 {
        '8'
    } else {
        '9'
    }
}

/// The decimal numeral of `n`, without leading zeros.
pub open spec fn decimal(n: nat) -> Seq<char>
    decreases n,
{
    if n < 10 {
        seq![digit_char(n)]
    } else {
        decimal(n / 10).push(digit_char(n % 10))
    }
}

fn digit_text(d: u64) -> (res: &'static str)
    requires
        d < 10,
    ensures
        res@ == seq![digit_char(d as nat)],
{
    proof {
        reveal_strlit("0");
        reveal_strlit("1");
        reveal_strlit("2");
        reveal_strlit("3");
        reveal_strlit("4");
        reveal_strlit("5");
        reveal_strlit("6");
        reveal_strlit("7");
        reveal_strlit("8");
        reveal_strlit("9");
    }
    let res = if d == 0 {
        "0"
    } else if d == 1 {
        "1"
    } else if d == 2 {
        "2"
    } else if d == 3 {
        "3"
    } else if d == 4 {
        "4"
    } else if d == 5 {
        "5"
    } else if d == 6 {
        "6"
    } else if d == 7 {
        "7"
    } else if d == 8 {
        "8"
    } else {
        "9"
    };
    assert(res@ =~= seq![digit_char(d as nat)]);
    res
}

/// Writes `n` as a decimal numeral.
pub fn decimal_text(n: u64) -> (res: String)
    ensures
        res@ == decimal(n as nat),
    decreases n,
{
    if n < 10 {
        String::from_str(digit_text(n))
    } else {
        let head = decimal_text(n / 10);
        let res = head.concat(digit_text(n % 10));
        assert(res@ =~= decimal(n as nat));
        res
    }
}

/// The value of a decimal digit, and nothing for any other character.
pub open spec fn digit_value(c: char) -> Option<nat> {
    if c == '0' {
        Some(0)
    } else if c == '1' {
        Some(1)
    } else if c == '2' {
        Some(2)
    } else if c == '3' {
        Some(3)
    } else if c == '4' {
        Some(4)
    } else if c == '5' {
        Some(5)
    } else if c == '6' {
        Some(6)
    } else if c == '7' {
        Some(7)
    } else if c == '8' {
        Some(8)
    } else if c == '9' {
        Some(9)
    } else {
        None
    }
}

/// The number that a run of decimal digits stands for; nothing where the run
/// is empty or holds another character.
pub open spec fn digits_value(digits: Seq<char>) -> Option<nat>
    decreases digits.len(),
{
    if digits.len() == 0 {
        None
    } else if digits.len() == 1 {
        digit_value(digits[0])
    } else {
        match (digits_value(digits.drop_last()), digit_value(digits.last())) {
            (Some(high), Some(low)) => Some(high * 10 + low),
            _ => None,
        }
    }
}

/// The run of digits in a text: the text without the `+` that may precede
/// it.
pub open spec fn unsigned_part(text: Seq<char>) -> Seq<char> {
    if text.len() > 0 && text[0] == '+' {
        text.subrange(1, text.len() as int)
    } else {
        text
    }
}

/// The number that a text stands for where it is at most `max`: decimal
/// digits, which a `+` may precede.
pub open spec fn number_of(text: Seq<char>, max: nat) -> Option<nat> {
    match digits_value(unsigned_part(text)) {
        Some(n) => if n <= max {
            Some(n)
        } else {
            None
        },
        None => None,
    }
}

/// The count that a text stands for: a number that a `usize` holds.
pub open spec fn count_of(text: Seq<char>) -> Option<usize> {
    match number_of(text, usize::MAX as nat) {
        Some(n) => Some(n as usize),
        None => None,
    }
}

fn digit_of(c: char) -> (res: Option<usize>)
    ensures
        match res {
            Some(d) => digit_value(c) == Some(d as nat) && d < 10,
            None => digit_value(c) is None,
        },
{
    if c == '0' {
        Some(0)
    } else if c == '1' {
        Some(1)
    } else if c == '2' {
        Some(2)
    } else if c == '3' {
        Some(3)
    } else if c == '4' {
        Some(4)
    } else if c == '5' {
        Some(5)
    } else if c == '6' {
        Some(6)
    } else if c == '7' {
        Some(7)
    } else if c == '8' {
        Some(8)
    } else if c == '9' {
        Some(9)
    } else {
        None
    }
}

/// A run with a character that is no digit stands for no number.
proof fn lemma_other_character(digits: Seq<char>, at: int)
    requires
        0 <= at < digits.len(),
        digit_value(digits[at]) is None,
    ensures
        digits_value(digits) is None,
    decreases digits.len(),
{
    if digits.len() > 1 && at < digits.len() - 1 {
        lemma_other_character(digits.drop_last(), at);
    }
}

/// The number of a run is at least the number of each of its beginnings.
proof fn lemma_beginning(digits: Seq<char>, len: int)
    requires
        0 < len <= digits.len(),
        digits_value(digits) is Some,
    ensures
        digits_value(digits.subrange(0, len)) is Some,
        digits_value(digits.subrange(0, len))->0 <= digits_value(digits)->0,
    decreases digits.len(),
{
    if len == digits.len() {
        assert(digits.subrange(0, len) =~= digits);
    } else {
        assert(digits.drop_last().subrange(0, len) =~= digits.subrange(0, len));
        lemma_beginning(digits.drop_last(), len);
    }
}

/// Reads a number that is at most `max`: decimal digits, which a `+` may
/// precede. Every other text, and a larger number, gives nothing.
pub fn parse_number(text: &str, max: usize) -> (res: Option<usize>)
    ensures
        match res {
            Some(n) => number_of(text@, max as nat) == Some(n as nat),
            None => number_of(text@, max as nat) is None,
        },
{
    let len = text.unicode_len();
    let start: usize = if len > 0 && text.get_char(0) == '+' {
        1
    } else {
        0
    };
    let ghost digits = unsigned_part(text@);
    assert(digits =~= text@.subrange(start as int, len as int));
    if start == len {
        return None;
    }
    let mut value: usize = 0;
    let mut i: usize = start;
    while i < len
        invariant
            start <= i <= len,
            len == text@.len(),
            digits == text@.subrange(start as int, len as int),
            digits == unsigned_part(text@),
            i == start ==> value == 0,
            i > start ==> digits_value(digits.subrange(0, i - start)) == Some(value as nat),
            value <= max,
        decreases len - i,
    {
        let ghost before = digits.subrange(0, i - start);
        let ghost with_next = digits.subrange(0, i - start + 1);
        assert(with_next.drop_last() =~= before);
        assert(with_next.last() == text@[i as int]);
        let digit = match digit_of(text.get_char(i)) {
            Some(digit) => digit,
            None => {
                proof {
                    lemma_other_character(digits, i - start);
                }
                return None;
            },
        };
        assert(digits_value(with_next) == Some((value * 10 + digit) as nat));
        if digit > max || value > (max - digit) / 10 {
            proof {
                if digits_value(digits) is Some {
                    lemma_beginning(digits, i - start + 1);
                }
            }
            return None;
        }
        value = value * 10 + digit;
        i += 1;
    }
    assert(digits.subrange(0, len - start) =~= digits);
    Some(value)
}

/// Reads a count: decimal digits, which a `+` may precede. Every other
/// text, and a number too large for a `usize`, gives nothing.
pub fn parse_count(text: &str) -> (res: Option<usize>)
    ensures
        res == count_of(text@),
{
    parse_number(text, usize::MAX)
}

/// A numeral reads back as the number it was written for.
pub proof fn lemma_numeral_reads_back(n: nat)
    ensures
        digits_value(decimal(n)) == Some(n),
        decimal(n).len() > 0,
        decimal(n)[0] != '+',
        n <= usize::MAX ==> count_of(decimal(n)) == Some(n as usize),
    decreases n,
{
    if n >= 10 {
        lemma_numeral_reads_back(n / 10);
        let numeral = decimal(n);
        assert(numeral.drop_last() =~= decimal(n / 10));
        assert(numeral.last() == digit_char(n % 10));
    }
}

} // verus!
