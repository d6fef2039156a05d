//! Decimal text: rendering integers and parsing them back, with the
//! error kinds of the standard integer parser.

use vstd::prelude::*;
use vstd::string::*;

verus! {

/// The ASCII character of the decimal digit `d` (`d < 10`).
pub open spec fn digit_char(d: nat) -> char {
    (48 + d) as char
}

/// Whether `c` is one of the ASCII digits `0`..`9`.
pub open spec fn is_digit_char(c: char) -> bool {
    48 <= (c as u32) && (c as u32) <= 57
}

/// The numeric value of an ASCII digit.
pub open spec fn digit_value(c: char) -> nat {
    ((c as u32) - 48) as nat
}

/// The shortest decimal rendering of `n`, most significant digit first.
pub open spec fn decimal(n: nat) -> Seq<char>
    decreases n,
{
    if n < 10 {
        seq![digit_char(n)]
    } else {
        decimal(n / 10).push(digit_char(n % 10))
    }
}

/// The decimal rendering of a signed integer: a minus sign before the
/// digits of its magnitude when it is negative.
pub open spec fn signed_decimal(i: int) -> Seq<char> {
    if i < 0 {
        seq!['-'] + decimal((-i) as nat)
    } else {
        decimal(i as nat)
    }
}

/// Why a text is not an unsigned integer (the kinds of the standard parser).
#[derive(Debug, Clone, Copy, PartialEq, Eq, Structural)]
pub enum IntParseError {
    /// The text is empty.
    Empty,
    /// A character is not a digit, or the text is a lone sign.
    InvalidDigit,
    /// The value does not fit in the target type.
    PosOverflow,
}

/// Reads `s` digit by digit from the front, starting from the value
/// `acc`; a non-digit is reported before an overflow at the same place.
pub open spec fn parse_digits(s: Seq<char>, acc: nat, max: nat) -> Result<nat, IntParseError>
    decreases s.len(),
{
    if s.len() == 0 {
        Ok(acc)
    } else if !is_digit_char(s[0]) {
        Err(IntParseError::InvalidDigit)
    } else if acc * 10 + digit_value(s[0]) > max {
        Err(IntParseError::PosOverflow)
    } else {
        parse_digits(s.drop_first(), acc * 10 + digit_value(s[0]), max)
    }
}

/// The result of parsing `s` as an unsigned integer no larger than `max`:
/// an optional leading `+`, then at least one decimal digit.
pub open spec fn parse_unsigned(s: Seq<char>, max: nat) -> Result<nat, IntParseError> {
    if s.len() == 0 {
        Err(IntParseError::Empty)
    } else if (s[0] == '+' || s[0] == '-') && s.len() == 1 {
        Err(IntParseError::InvalidDigit)
    } else if s[0] == '+' {
        parse_digits(s.drop_first(), 0, max)
    } else {
        parse_digits(s, 0, max)
    }
}

/// The one-character text of a decimal digit.
fn digit_text(d: u8) -> (s: &'static str)
    requires
        d < 10,
    ensures
        s@ == seq![digit_char(d as nat)],
{
    match d {
        0 => {
            proof { reveal_strlit("0"); }
            "0"
        },
        1 => {
            proof { reveal_strlit("1"); }
            "1"
        },
        2 => {
            proof { reveal_strlit("2"); }
            "2"
        },
        3 => {
            proof { reveal_strlit("3"); }
            "3"
        },
        4 => {
            proof { reveal_strlit("4"); }
            "4"
        },
        5 => {
            proof { reveal_strlit("5"); }
            "5"
        },
        6 => {
            proof { reveal_strlit("6"); }
            "6"
        },
        7 => {
            proof { reveal_strlit("7"); }
            "7"
        },
        8 => {
            proof { reveal_strlit("8"); }
            "8"
        },
        _ => {
            proof { reveal_strlit("9"); }
            "9"
        },
    }
}

/// Renders `n` in decimal.
pub fn u128_to_decimal(n: u128) -> (s: String)
    ensures
        s@ == decimal(n as nat),
    decreases n,
{
    if n < 10 {
        let mut s = String::new();
        s.append(digit_text(n as u8));
        s
    } else {
        let mut s = u128_to_decimal(n / 10);
        s.append(digit_text((n % 10) as u8));
        s
    }
}

/// Renders a signed integer in decimal, with a leading `-` when negative.
pub fn i64_to_decimal(i: i64) -> (s: String)
    ensures
        s@ == signed_decimal(i as int),
{
    if i < 0 {
        let magnitude: u128 = (0i128 - (i as i128)) as u128;
        let digits = u128_to_decimal(magnitude);
        let mut s = String::new();
        proof { reveal_strlit("-"); }
        s.append("-");
        s.append(digits.as_str());
        s
    } else {
        u128_to_decimal(i as u128)
    }
}

/// Whether two texts hold the same characters.
pub fn text_eq(a: &str, b: &str) -> (r: bool)
    ensures
        r == (a@ == b@),
{
    let n = a.unicode_len();
    let m = b.unicode_len();
    if n != m {
        return false;
    }
    let mut i: usize = 0;
    while i < n
        invariant
            n == a@.len(),
            m == b@.len(),
            n == m,
            i <= n,
            forall|j: int| 0 <= j < i ==> a@[j] == b@[j],
        decreases n - i,
    {
        if a.get_char(i) != b.get_char(i) {
            return false;
        }
        i += 1;
    }
    assert(a@ =~= b@);
    true
}

/// Parses `s` as an unsigned integer no larger than `max`, as the
/// standard parser of an unsigned type whose largest value is `max` does.
pub fn parse_unsigned_up_to(s: &str, max: u64) -> (r: Result<u64, IntParseError>)
    ensures
        match r {
            Ok(v) => parse_unsigned(s@, max as nat) == Ok::<nat, IntParseError>(v as nat),
            Err(e) => parse_unsigned(s@, max as nat) == Err::<nat, IntParseError>(e),
        },
{
    let n = s.unicode_len();
    if n == 0 {
        return Err(IntParseError::Empty);
    }
    let first = s.get_char(0);
    if (first == '+' || first == '-') && n == 1 {
        return Err(IntParseError::InvalidDigit);
    }
    let start: usize = if first == '+' { 1 } else { 0 };
    let ghost digits = s@.subrange(start as int, n as int);
    assert(first == '+' ==> digits =~= s@.drop_first());
    assert(first != '+' ==> digits =~= s@);
    let mut i: usize = start;
    let mut acc: u64 = 0;
    while i < n
        invariant
            n == s@.len(),
            start <= i <= n,
            acc <= max,
            digits == s@.subrange(start as int, n as int),
            parse_unsigned(s@, max as nat) == parse_digits(digits, 0, max as nat),
            parse_digits(digits, 0, max as nat) == parse_digits(
                s@.subrange(i as int, n as int),
                acc as nat,
                max as nat,
            ),
        decreases n - i,
    {
        let ghost rest = s@.subrange(i as int, n as int);
        assert(rest.drop_first() =~= s@.subrange(i + 1, n as int));
        let c = s.get_char(i);
        assert(rest[0] == c);
        let code = c as u32;
        if code < 48 || code > 57 {
            return Err(IntParseError::InvalidDigit);
        }
        let d: u64 = (code - 48) as u64;
        let next: u128 = (acc as u128) * 10 + (d as u128);
        if next > max as u128 {
            return Err(IntParseError::PosOverflow);
        }
        acc = next as u64;
        i += 1;
    }
    assert(s@.subrange(n as int, n as int) =~= Seq::<char>::empty());
    Ok(acc)
}


/// One more digit read after the value `v`.
pub open spec fn step_digit(v: nat, c: char, max: nat) -> Result<nat, IntParseError> {
    if !is_digit_char(c) {
        Err(IntParseError::InvalidDigit)
    } else if v * 10 + digit_value(c) > max {
        Err(IntParseError::PosOverflow)
    } else {
        Ok(v * 10 + digit_value(c))
    }
}

proof fn lemma_parse_digits_push(s: Seq<char>, c: char, acc: nat, max: nat)
    ensures
        parse_digits(s.push(c), acc, max) == match parse_digits(s, acc, max) {
            Ok(v) => step_digit(v, c, max),
            Err(e) => Err(e),
        },
    decreases s.len(),
{
    reveal_with_fuel(parse_digits, 2);
    if s.len() == 0 {
        assert(s.push(c) =~= seq![c]);
        assert(seq![c].drop_first() =~= Seq::<char>::empty());
    } else {
        assert(s.push(c)[0] == s[0]);
        assert(s.push(c).drop_first() =~= s.drop_first().push(c));
        if is_digit_char(s[0]) && acc * 10 + digit_value(s[0]) <= max {
            lemma_parse_digits_push(s.drop_first(), c, acc * 10 + digit_value(s[0]), max);
        }
    }
}

proof fn lemma_digit_char(d: nat)
    requires
        d < 10,
    ensures
        is_digit_char(digit_char(d)),
        digit_value(digit_char(d)) == d,
{
}

proof fn lemma_decimal_digits(n: nat, max: nat)
    requires
        n <= max,
    ensures
        decimal(n).len() >= 1,
        is_digit_char(decimal(n)[0]),
        parse_digits(decimal(n), 0, max) == Ok::<nat, IntParseError>(n),
    decreases n,
{
    reveal_with_fuel(parse_digits, 2);
    if n < 10 {
        lemma_digit_char(n);
        assert(seq![digit_char(n)].drop_first() =~= Seq::<char>::empty());
    } else {
        lemma_decimal_digits(n / 10, max);
        lemma_digit_char(n % 10);
        lemma_parse_digits_push(decimal(n / 10), digit_char(n % 10), 0, max);
    }
}

/// Parsing the decimal rendering of a number gives the number back.
pub proof fn lemma_decimal_round_trip(n: nat, max: nat)
    requires
        n <= max,
    ensures
        parse_unsigned(decimal(n), max) == Ok::<nat, IntParseError>(n),
{
    lemma_decimal_digits(n, max);
}

/// Different numbers have different decimal renderings.
pub proof fn lemma_decimal_injective(a: nat, b: nat)
    requires
        decimal(a) == decimal(b),
    ensures
        a == b,
{
    let max = if a < b { b } else { a };
    lemma_decimal_round_trip(a, max);
    lemma_decimal_round_trip(b, max);
}

} // verus!
