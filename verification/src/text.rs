//! Characters, tokens and decimal numbers, as the file-name grammar uses them.

use vstd::prelude::*;

verus! {

/// Appends one character to a string.
///
/// Trusted: stands for `String::push`, which adds the character at the end and
/// leaves the rest as it was.
#[verifier::external_body]
pub(crate) fn push_char(s: &mut String, c: char)
    ensures
        final(s)@ == old(s)@.push(c),
{
    s.push(c)
}

/// The characters of a string, in order.
pub fn chars_of(s: &str) -> (chars: Vec<char>)
    ensures
        chars@ == s@,
{
    let mut chars: Vec<char> = Vec::new();
    for c in it: s.chars()
        invariant
            chars@ == it.seq().take(it.index()),
            it.seq() == s@,
    {
        chars.push(c);
    }
    chars
}

/// A string of the characters of `chars` from `start` up to `end`.
pub(crate) fn string_of_range(chars: &Vec<char>, start: usize, end: usize) -> (s: String)
    requires
        start <= end <= chars.len(),
    ensures
        s@ == chars@.subrange(start as int, end as int),
{
    let mut s = String::new();
    let mut i: usize = start;
    while i < end
        invariant
            start <= i <= end <= chars.len(),
            s@ == chars@.subrange(start as int, i as int),
        decreases end - i,
    {
        push_char(&mut s, chars[i]);
        i += 1;
    }
    s
}

/// A string of the characters of `chars`.
pub fn string_of(chars: &Vec<char>) -> (s: String)
    ensures
        s@ == chars@,
{
    string_of_range(chars, 0, chars.len())
}

/// An ASCII decimal digit.
pub open spec fn is_digit(c: char) -> bool {
    '0' <= c <= '9'
}

/// A character that a token may hold: an ASCII letter, an ASCII digit or a hyphen.
pub open spec fn is_token_char(c: char) -> bool {
    ('A' <= c <= 'Z') || ('a' <= c <= 'z') || is_digit(c) || c == '-'
}

/// A token: one or more token characters.
pub open spec fn is_token(s: Seq<char>) -> bool {
    s.len() > 0 && forall|i: int| 0 <= i < s.len() ==> is_token_char(#[trigger] s[i])
}

/// A number: one or more ASCII decimal digits.
pub open spec fn is_number(s: Seq<char>) -> bool {
    s.len() > 0 && forall|i: int| 0 <= i < s.len() ==> is_digit(#[trigger] s[i])
}

/// The digit that writes `d`, for `0 <= d <= 9`.
pub open spec fn digit_char(d: int) -> char {
    (d + '0' as int) as char
}

/// What a digit stands for.
pub open spec fn digit_value(c: char) -> int {
    c as int - '0' as int
}

/// The decimal notation of a natural number, without leading zeros.
pub open spec fn decimal(n: nat) -> Seq<char>
    decreases n,
{
    if n < 10 {
        seq![digit_char(n as int)]
    } else {
        decimal(n / 10).push(digit_char((n % 10) as int))
    }
}

/// The decimal notation of an integer: a minus sign before a negative one.
pub open spec fn signed_decimal(n: int) -> Seq<char> {
    if n < 0 {
        seq!['-'] + decimal((-n) as nat)
    } else {
        decimal(n as nat)
    }
}

/// The number that a sequence of digits writes, most significant digit first.
pub open spec fn number_value(s: Seq<char>) -> nat
    decreases s.len(),
{
    if s.len() == 0 {
        0
    } else {
        (number_value(s.drop_last()) * 10 + digit_value(s.last())) as nat
    }
}

/// Whether a character is an ASCII decimal digit.
pub fn is_digit_char(c: char) -> (b: bool)
    ensures
        b == is_digit(c),
{
    '0' <= c && c <= '9'
}

/// Whether a token may hold a character.
pub fn is_token_character(c: char) -> (b: bool)
    ensures
        b == is_token_char(c),
{
    ('A' <= c && c <= 'Z') || ('a' <= c && c <= 'z') || is_digit_char(c) || c == '-'
}

/// The decimal notation is a number in the sense of the grammar.
pub proof fn lemma_decimal_is_number(n: nat)
    ensures
        is_number(decimal(n)),
    decreases n,
{
    if n >= 10 {
        lemma_decimal_is_number(n / 10);
    }
}

/// Reading back the decimal notation of a number gives the number.
pub proof fn lemma_number_value_of_decimal(n: nat)
    ensures
        number_value(decimal(n)) == n,
    decreases n,
{
    if n < 10 {
        let s = decimal(n);
        assert(s.drop_last() =~= Seq::<char>::empty());
        assert(number_value(s.drop_last()) == 0);
    } else {
        lemma_number_value_of_decimal(n / 10);
        let s = decimal(n);
        assert(s.drop_last() =~= decimal(n / 10));
    }
}

/// A number's value does not shrink when digits follow it.
pub proof fn lemma_number_value_prefix(s: Seq<char>, i: int)
    requires
        0 <= i <= s.len(),
        forall|k: int| 0 <= k < s.len() ==> is_digit(#[trigger] s[k]),
    ensures
        number_value(s.take(i)) <= number_value(s),
    decreases s.len() - i,
{
    if i < s.len() {
        lemma_number_value_prefix(s, i + 1);
        assert(s.take(i + 1).drop_last() =~= s.take(i));
        assert(is_digit(s[i]));
    } else {
        assert(s.take(i) =~= s);
    }
}

/// Appends the decimal notation of `n`.
pub fn push_decimal(out: &mut String, n: u64)
    ensures
        final(out)@ == old(out)@ + decimal(n as nat),
    decreases n,
{
    if n >= 10 {
        push_decimal(out, n / 10);
    }
    let d: u8 = (n % 10) as u8;
    let c: char = (d + 48u8) as char;
    assert(c == digit_char((n % 10) as int));
    push_char(out, c);
    assert(final(out)@ =~= old(out)@ + decimal(n as nat));
}

/// Appends the decimal notation of `n`, with a minus sign if it is negative.
pub fn push_signed_decimal(out: &mut String, n: i64)
    ensures
        final(out)@ == old(out)@ + signed_decimal(n as int),
{
    if n < 0 {
        push_char(out, '-');
        let magnitude: i128 = -(n as i128);
        push_decimal(out, magnitude as u64);
        assert(final(out)@ =~= old(out)@ + signed_decimal(n as int));
    } else {
        push_decimal(out, n as u64);
    }
}

/// Reads the number that the digits from `start` up to `end` write, if it is at
/// most `limit`.
pub(crate) fn read_number(chars: &Vec<char>, start: usize, end: usize, limit: u64) -> (r: Option<u64>)
    requires
        start <= end <= chars.len(),
        forall|k: int| start <= k < end ==> is_digit(#[trigger] chars@[k]),
    ensures
        match r {
            Some(v) => v == number_value(chars@.subrange(start as int, end as int)) && v <= limit,
            None => number_value(chars@.subrange(start as int, end as int)) > limit,
        },
{
    let ghost digits = chars@.subrange(start as int, end as int);
    let mut acc: u128 = 0;
    let mut i: usize = start;
    assert(digits.take(0) =~= Seq::<char>::empty());
    while i < end
        invariant
            start <= i <= end <= chars.len(),
            digits == chars@.subrange(start as int, end as int),
            forall|k: int| 0 <= k < digits.len() ==> is_digit(#[trigger] digits[k]),
            acc == number_value(digits.take(i - start)),
            acc <= limit,
        decreases end - i,
    {
        let c: char = chars[i];
        assert(c == digits[i - start]);
        assert(is_digit(c));
        let d: u128 = (c as u8 - 48u8) as u128;
        assert(d == digit_value(c));
        proof {
            assert(digits.take(i - start + 1).drop_last() =~= digits.take(i - start));
        }
        acc = acc * 10 + d;
        i += 1;
        if acc > limit as u128 {
            proof {
                lemma_number_value_prefix(digits, i - start);
            }
            return None;
        }
    }
    assert(digits.take(i - start) =~= digits);
    Some(acc as u64)
}

/// Why a string is not the decimal notation of a 64-bit signed integer.
#[derive(Debug, Clone, Copy, PartialEq, Eq, Structural)]
pub enum IntegerLiteralError {
    /// The string is empty.
    Empty,
    /// The string is not an optional sign followed by one or more digits.
    InvalidDigit,
    /// The number is above the largest 64-bit signed integer.
    TooLarge,
    /// The number is below the smallest 64-bit signed integer.
    TooSmall,
}

impl IntegerLiteralError {
    /// The sentence that describes the failure.
    pub open spec fn message(self) -> Seq<char> {
        match self {
            IntegerLiteralError::Empty => "cannot parse integer from empty string"@,
            IntegerLiteralError::InvalidDigit => "invalid digit found in string"@,
            IntegerLiteralError::TooLarge => "number too large to fit in target type"@,
            IntegerLiteralError::TooSmall => "number too small to fit in target type"@,
        }
    }

    /// The sentence that describes the failure.
    pub fn description(&self) -> (text: &'static str)
        ensures
            text@ == self.message(),
    {
        match self {
            IntegerLiteralError::Empty => "cannot parse integer from empty string",
            IntegerLiteralError::InvalidDigit => "invalid digit found in string",
            IntegerLiteralError::TooLarge => "number too large to fit in target type",
            IntegerLiteralError::TooSmall => "number too small to fit in target type",
        }
    }
}

/// Whether an integer literal starts with a sign.
pub open spec fn has_sign(s: Seq<char>) -> bool {
    s.len() > 0 && (s[0] == '-' || s[0] == '+')
}

/// Where the run of digits that starts at `from` ends.
pub open spec fn digit_run_end(s: Seq<char>, from: int) -> int
    decreases s.len() - from,
{
    if 0 <= from < s.len() && is_digit(s[from]) {
        digit_run_end(s, from + 1)
    } else {
        from
    }
}

/// What a string means as a 64-bit signed integer: an optional `+` or `-`, then
/// one or more decimal digits, and nothing else. The string is read from left
/// to right and the first failure is reported: digits that leave the range
/// before a character behind them that is no digit.
pub open spec fn i64_literal(s: Seq<char>) -> Result<i64, IntegerLiteralError> {
    let start: int = if has_sign(s) {
        1
    } else {
        0
    };
    let end = digit_run_end(s, start);
    let value = number_value(s.subrange(start, end));
    if s.len() == 0 {
        Err(IntegerLiteralError::Empty)
    } else if s[0] == '-' && value > -i64::MIN {
        Err(IntegerLiteralError::TooSmall)
    } else if s[0] != '-' && value > i64::MAX {
        Err(IntegerLiteralError::TooLarge)
    } else if end == start || end < s.len() {
        Err(IntegerLiteralError::InvalidDigit)
    } else if s[0] == '-' {
        Ok((-value) as i64)
    } else {
        Ok(value as i64)
    }
}

/// The end of the run of digits that starts at `from`.
fn scan_digits(chars: &Vec<char>, from: usize) -> (end: usize)
    requires
        from <= chars.len(),
    ensures
        end == digit_run_end(chars@, from as int),
        from <= end <= chars.len(),
        forall|k: int| from <= k < end ==> is_digit(#[trigger] chars@[k]),
{
    let mut end: usize = from;
    while end < chars.len() && is_digit_char(chars[end])
        invariant
            from <= end <= chars.len(),
            digit_run_end(chars@, from as int) == digit_run_end(chars@, end as int),
            forall|k: int| from <= k < end ==> is_digit(#[trigger] chars@[k]),
        decreases chars.len() - end,
    {
        end += 1;
    }
    end
}

/// Reads a 64-bit signed integer from its decimal notation.
pub fn parse_i64(s: &str) -> (r: Result<i64, IntegerLiteralError>)
    ensures
        r == i64_literal(s@),
{
    let chars = chars_of(s);
    let n: usize = chars.len();
    if n == 0 {
        return Err(IntegerLiteralError::Empty);
    }
    let first: char = chars[0];
    let negative: bool = first == '-';
    let start: usize = if first == '-' || first == '+' {
        1
    } else {
        0
    };
    let end: usize = scan_digits(&chars, start);
    let limit: u64 = if negative {
        0x8000_0000_0000_0000u64
    } else {
        0x7fff_ffff_ffff_ffffu64
    };
    let magnitude: u64 = match read_number(&chars, start, end, limit) {
        Some(magnitude) => magnitude,
        None => {
            return Err(
                if negative {
                    IntegerLiteralError::TooSmall
                } else {
                    IntegerLiteralError::TooLarge
                },
            );
        },
    };
    if end == start || end < n {
        return Err(IntegerLiteralError::InvalidDigit);
    }
    if negative {
        let value: i128 = -(magnitude as i128);
        Ok(value as i64)
    } else {
        Ok(magnitude as i64)
    }
}

} // verus!
