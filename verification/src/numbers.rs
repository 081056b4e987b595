use vstd::prelude::*;

verus! {

/// Why a decimal text is not an unsigned integer of the requested width
/// (the kinds of `std::num::IntErrorKind` that unsigned parsing reports).
#[derive(Debug, Clone, Copy, PartialEq, Eq, Structural)]
pub enum IntParseError {
    Empty,
    InvalidDigit,
    PosOverflow,
}

/// Whether `c` is a decimal digit.
pub open spec fn is_decimal_digit(c: char) -> bool {
    '0' <= c <= '9'
}

/// Value of the decimal digit `c`.
pub open spec fn digit_value(c: char) -> nat {
    (c as nat - '0' as nat) as nat
}

/// Reads the digits of `d` from position `i` on, with `acc` the value of the
/// digits before `i`: the first character that is no digit, or the first digit
/// after which the value exceeds `max`, decides the failure.
pub open spec fn scan_digits(d: Seq<char>, i: int, acc: nat, max: nat) -> Result<nat, IntParseError>
    decreases d.len() - i,
{
    if i < 0 || i >= d.len() {
        Ok(acc)
    } else if !is_decimal_digit(d[i]) {
        Err(IntParseError::InvalidDigit)
    } else if acc * 10 + digit_value(d[i]) > max {
        Err(IntParseError::PosOverflow)
    } else {
        scan_digits(d, i + 1, acc * 10 + digit_value(d[i]), max)
    }
}

/// What parsing `s` as an unsigned integer not above `max` gives: an optional
/// leading `+` followed by decimal digits.
pub open spec fn parse_unsigned_spec(s: Seq<char>, max: nat) -> Result<nat, IntParseError> {
    if s.len() == 0 {
        Err(IntParseError::Empty)
    } else if s.len() == 1 && (s[0] == '+' || s[0] == '-') {
        Err(IntParseError::InvalidDigit)
    } else if s[0] == '+' {
        scan_digits(s.drop_first(), 0, 0, max)
    } else {
        scan_digits(s, 0, 0, max)
    }
}

impl IntParseError {
    /// The text of the failure, as `std::num::ParseIntError` displays it.
    pub open spec fn text(self) -> Seq<char> {
        match self {
            IntParseError::Empty => "cannot parse integer from empty string"@,
            IntParseError::InvalidDigit => "invalid digit found in string"@,
            IntParseError::PosOverflow => "number too large to fit in target type"@,
        }
    }

    /// The text of the failure, as `std::num::ParseIntError` displays it.
    pub fn message(&self) -> (r: String)
        ensures
            r@ == self.text(),
    {
        match self {
            IntParseError::Empty => String::from_str("cannot parse integer from empty string"),
            IntParseError::InvalidDigit => String::from_str("invalid digit found in string"),
            IntParseError::PosOverflow => String::from_str("number too large to fit in target type"),
        }
    }
}

/// Parses `s` as an unsigned decimal integer not above `max`.
pub fn parse_unsigned(s: &str, max: u64) -> (r: Result<u64, IntParseError>)
    ensures
        r matches Ok(v) ==> v <= max,
        match (r, parse_unsigned_spec(s@, max as nat)) {
            (Ok(v), Ok(w)) => v as nat == w,
            (Err(e), Err(f)) => e == f,
            _ => false,
        },
{
    let n = s.unicode_len();
    if n == 0 {
        return Err(IntParseError::Empty);
    }
    let first = s.get_char(0);
    if n == 1 && (first == '+' || first == '-') {
        return Err(IntParseError::InvalidDigit);
    }
    let start: usize = if first == '+' { 1 } else { 0 };
    let ghost d: Seq<char> = if first == '+' { s@.drop_first() } else { s@ };
    assert(d == s@.subrange(start as int, n as int));
    assert(parse_unsigned_spec(s@, max as nat) == scan_digits(d, 0, 0, max as nat));
    let mut acc: u64 = 0;
    let mut i: usize = start;
    while i < n
        invariant
            n == s@.len(),
            start <= i <= n,
            d == s@.subrange(start as int, n as int),
            acc <= max,
            parse_unsigned_spec(s@, max as nat) == scan_digits(
                d,
                i - start,
                acc as nat,
                max as nat,
            ),
        decreases n - i,
    {
        let c = s.get_char(i);
        assert(d[i - start] == c);
        if !('0' <= c && c <= '9') {
            return Err(IntParseError::InvalidDigit);
        }
        let v = (c as u32 - '0' as u32) as u64;
        if v > max || acc > (max - v) / 10 {
            assert(acc * 10 + v > max) by (nonlinear_arith)
                requires
                    v > max || acc > (max - v) / 10,
            ;
            return Err(IntParseError::PosOverflow);
        }
        assert(acc * 10 + v <= max) by (nonlinear_arith)
            requires
                acc <= (max - v) / 10,
                v <= 9,
        ;
        acc = acc * 10 + v;
        i = i + 1;
    }
    Ok(acc)
}

/// Parses `s` as a `u16` the way `str::parse::<u16>` does.
pub fn parse_u16(s: &str) -> (r: Result<u16, IntParseError>)
    ensures
        match (r, parse_unsigned_spec(s@, u16::MAX as nat)) {
            (Ok(v), Ok(w)) => v as nat == w,
            (Err(e), Err(f)) => e == f,
            _ => false,
        },
{
    match parse_unsigned(s, u16::MAX as u64) {
        Ok(v) => Ok(v as u16),
        Err(e) => Err(e),
    }
}

/// Parses `s` as a `u32` the way `str::parse::<u32>` does.
pub fn parse_u32(s: &str) -> (r: Result<u32, IntParseError>)
    ensures
        match (r, parse_unsigned_spec(s@, u32::MAX as nat)) {
            (Ok(v), Ok(w)) => v as nat == w,
            (Err(e), Err(f)) => e == f,
            _ => false,
        },
{
    match parse_unsigned(s, u32::MAX as u64) {
        Ok(v) => Ok(v as u32),
        Err(e) => Err(e),
    }
}

/// Parses `s` as a `u64` the way `str::parse::<u64>` does.
pub fn parse_u64(s: &str) -> (r: Result<u64, IntParseError>)
    ensures
        match (r, parse_unsigned_spec(s@, u64::MAX as nat)) {
            (Ok(v), Ok(w)) => v as nat == w,
            (Err(e), Err(f)) => e == f,
            _ => false,
        },
{
    parse_unsigned(s, u64::MAX)
}

} // verus!
