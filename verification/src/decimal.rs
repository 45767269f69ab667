//! Decimal text for unsigned 32-bit numbers: reading it, as `str::parse::<u32>`
//! does, and writing it, as `u32::to_string` does.
use vstd::prelude::*;
use vstd::string::*;
use crate::text::chars_of;

verus! {

/// Why a text is not the decimal form of a `u32`.
#[derive(PartialEq, Eq, Structural, Clone, Copy, Debug)]
pub enum IntErrorKind {
    /// The text is empty.
    Empty,
    /// The text holds a character that is not a decimal digit (or a lone sign).
    InvalidDigit,
    /// The number is larger than `u32::MAX`.
    PosOverflow,
}

/// The text that `ParseIntError::description` gives for each kind.
pub open spec fn int_error_text(k: IntErrorKind) -> Seq<char> {
    match k {
        IntErrorKind::Empty => "cannot parse integer from empty string"@,
        IntErrorKind::InvalidDigit => "invalid digit found in string"@,
        IntErrorKind::PosOverflow => "number too large to fit in target type"@,
    }
}

impl IntErrorKind {
    /// The text of this error, as `ParseIntError::description` gives it.
    pub fn description(&self) -> (t: &'static str)
        ensures
            t@ == int_error_text(*self),
    {
        match self {
            IntErrorKind::Empty => "cannot parse integer from empty string",
            IntErrorKind::InvalidDigit => "invalid digit found in string",
            IntErrorKind::PosOverflow => "number too large to fit in target type",
        }
    }
}

pub open spec fn is_digit(c: char) -> bool {
    '0' <= c && c <= '9'
}

pub open spec fn digit_value(c: char) -> int {
    (c as int) - ('0' as int)
}

/// The digit character for `d` (`0 <= d < 10`).
pub open spec fn digit_char(d: int) -> char {
    (d + ('0' as int)) as char
}

/// Reads the digits `d` after the value `acc` read so far, left to right:
/// the first character that is no digit fails the read, and so does the
/// first digit that takes the value past `u32::MAX`.
pub open spec fn parse_digits(d: Seq<char>, acc: int) -> Result<u32, IntErrorKind>
    decreases d.len(),
{
    if d.len() == 0 {
        Ok(acc as u32)
    } else if !is_digit(d[0]) {
        Err(IntErrorKind::InvalidDigit)
    } else if acc * 10 + digit_value(d[0]) > u32::MAX {
        Err(IntErrorKind::PosOverflow)
    } else {
        parse_digits(d.drop_first(), acc * 10 + digit_value(d[0]))
    }
}

/// What `s.parse::<u32>()` gives: an optional leading `+`, then decimal digits.
pub open spec fn parse_u32_spec(s: Seq<char>) -> Result<u32, IntErrorKind> {
    if s.len() == 0 {
        Err(IntErrorKind::Empty)
    } else if s.len() == 1 && (s[0] == '+' || s[0] == '-') {
        Err(IntErrorKind::InvalidDigit)
    } else if s[0] == '+' {
        parse_digits(s.drop_first(), 0)
    } else {
        parse_digits(s, 0)
    }
}

/// The decimal form of `n`, without leading zeros.
pub open spec fn decimal(n: nat) -> Seq<char>
    decreases n,
{
    if n < 10 {
        seq![digit_char(n as int)]
    } else {
        decimal(n / 10).push(digit_char((n % 10) as int))
    }
}

/// Reads `s` as a `u32`, with the same results as `s.parse::<u32>()`.
pub fn parse_u32(s: &str) -> (r: Result<u32, IntErrorKind>)
    ensures
        r == parse_u32_spec(s@),
{
    let v = chars_of(s);
    let len = v.len();
    if len == 0 {
        return Err(IntErrorKind::Empty);
    }
    if len == 1 && (v[0] == '+' || v[0] == '-') {
        return Err(IntErrorKind::InvalidDigit);
    }
    let start: usize = if v[0] == '+' { 1 } else { 0 };
    let ghost whole = v@.subrange(start as int, len as int);
    assert(start == 1 ==> whole =~= v@.drop_first());
    assert(start == 0 ==> whole =~= v@);
    assert(parse_u32_spec(s@) == parse_digits(whole, 0));
    let mut acc: u32 = 0;
    let mut i: usize = start;
    while i < len
        invariant
            start <= i <= len,
            len == v@.len(),
            parse_u32_spec(s@) == parse_digits(whole, 0),
            parse_digits(v@.subrange(i as int, len as int), acc as int) == parse_digits(whole, 0),
        decreases len - i,
    {
        let c = v[i];
        let ghost rest = v@.subrange(i as int, len as int);
        assert(rest[0] == c);
        assert(rest.drop_first() =~= v@.subrange(i + 1, len as int));
        if !('0' <= c && c <= '9') {
            return Err(IntErrorKind::InvalidDigit);
        }
        let d: u32 = (c as u32) - ('0' as u32);
        assert(d as int == digit_value(c));
        match acc.checked_mul(10) {
            None => {
                return Err(IntErrorKind::PosOverflow);
            },
            Some(m) => match m.checked_add(d) {
                None => {
                    return Err(IntErrorKind::PosOverflow);
                },
                Some(next) => {
                    acc = next;
                },
            },
        }
        i = i + 1;
    }
    assert(v@.subrange(i as int, len as int).len() == 0);
    Ok(acc)
}

/// The text of the decimal digit `d`.
fn digit_str(d: u32) -> (s: &'static str)
    requires
        d < 10,
    ensures
        s@ == seq![digit_char(d as int)],
{
    proof {
        reveal_strlit("0");
        reveal_strlit("1");
        reveal_strlit("2");
        reveal_strlit("3");
        reveal_strlit("4");
        reveal_strlit("5");
        reveal_strlit("6");
        reveal_strlit("7");
        reveal_strlit("8");
        reveal_strlit("9");
    }
    match d {
        0 => "0",
        1 => "1",
        2 => "2",
        3 => "3",
        4 => "4",
        5 => "5",
        6 => "6",
        7 => "7",
        8 => "8",
        _ => "9",
    }
}

/// Writes `n` in decimal, as `n.to_string()` does.
pub fn to_decimal(n: u32) -> (s: String)
    ensures
        s@ == decimal(n as nat),
    decreases n,
{
    if n < 10 {
        String::from_str(digit_str(n))
    } else {
        let mut s = to_decimal(n / 10);
        s.append(digit_str(n % 10));
        s
    }
}

proof fn lemma_digit_char(d: int)
    requires
        0 <= d < 10,
    ensures
        is_digit(digit_char(d)),
        digit_value(digit_char(d)) == d,
{
}

proof fn lemma_parse_digits_push(s: Seq<char>, c: char, acc: int)
    requires
        0 <= acc <= u32::MAX,
        parse_digits(s, acc) is Ok,
        is_digit(c),
        parse_digits(s, acc)->Ok_0 * 10 + digit_value(c) <= u32::MAX,
    ensures
        parse_digits(s.push(c), acc) == Ok::<u32, IntErrorKind>(
            (parse_digits(s, acc)->Ok_0 * 10 + digit_value(c)) as u32,
        ),
    decreases s.len(),
{
    if s.len() == 0 {
        let next = acc * 10 + digit_value(c);
        assert((acc as u32) as int == acc);
        assert(s.push(c).drop_first() =~= Seq::<char>::empty());
        assert(parse_digits(Seq::<char>::empty(), next) == Ok::<u32, IntErrorKind>(next as u32));
        assert(parse_digits(s.push(c), acc) == parse_digits(s.push(c).drop_first(), next));
    } else {
        let next = acc * 10 + digit_value(s[0]);
        assert(s.push(c)[0] == s[0]);
        assert(s.push(c).drop_first() =~= s.drop_first().push(c));
        assert(parse_digits(s, acc) == parse_digits(s.drop_first(), next));
        lemma_parse_digits_push(s.drop_first(), c, next);
        assert(parse_digits(s.push(c), acc) == parse_digits(s.push(c).drop_first(), next));
    }
}

proof fn lemma_decimal_reads_back(n: nat)
    requires
        n <= u32::MAX,
    ensures
        decimal(n).len() > 0,
        is_digit(decimal(n)[0]),
        parse_digits(decimal(n), 0) == Ok::<u32, IntErrorKind>(n as u32),
    decreases n,
{
    if n < 10 {
        lemma_digit_char(n as int);
        let s = decimal(n);
        assert(s.drop_first() =~= Seq::<char>::empty());
        assert(parse_digits(Seq::<char>::empty(), n as int) == Ok::<u32, IntErrorKind>(n as u32));
        assert(parse_digits(s, 0) == parse_digits(s.drop_first(), n as int));
    } else {
        lemma_decimal_reads_back(n / 10);
        lemma_digit_char((n % 10) as int);
        lemma_parse_digits_push(decimal(n / 10), digit_char((n % 10) as int), 0);
        assert(decimal(n)[0] == decimal(n / 10)[0]);
    }
}

/// Reading back what `to_decimal` wrote gives the number that was written:
/// for every `u32` value `n`, the text `n.to_string()` parses to `n`.
pub proof fn lemma_decimal_round_trip(n: u32)
    ensures
        parse_u32_spec(decimal(n as nat)) == Ok::<u32, IntErrorKind>(n),
{
    lemma_decimal_reads_back(n as nat);
}

} // verus!
