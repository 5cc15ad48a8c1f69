//! Exact unsigned arithmetic over monetary amounts: decimal text, scaled
//! ratios rounded down, and the growth of the interest index.

use vstd::prelude::*;
use crate::host::StdError;
use crate::host::StdErrorView;

verus! {

/// One whole unit of the interest index. The index starts here.
pub const INDEX_SCALE: u128 = 1_000_000_000_000_000_000;

/// One whole, in basis points.
pub const BPS_SCALE: u128 = 10_000;

/// Seconds in the year that annual rates refer to (365 days).
pub const SECONDS_PER_YEAR: u128 = 31_536_000;

/// The character of a decimal digit.
pub open spec fn digit_char(d: nat) -> char {
    if d == 0 {
        '0'
    } else if d == 1 {
        '1'
    } else if d == 2 {
        '2'
    } else if d == 3 {
        '3'
    } else if d == 4 {
        '4'
    } else if d == 5 {
        '5'
    } else if d == 6 {
        '6'
    } else if d == 7 {
        '7'
    } else if d == 8 {
        '8'
    } else {
        '9'
    }
}

/// Whether `c` is one of `0` to `9`.
pub open spec fn is_digit(c: char) -> bool {
    c == '0' || c == '1' || c == '2' || c == '3' || c == '4' || c == '5' || c == '6' || c == '7'
        || c == '8' || c == '9'
}

/// The value of a decimal digit; 0 for any other character.
pub open spec fn digit_value(c: char) -> nat {
    if c == '1' {
        1
    } else if c == '2' {
        2
    } else if c == '3' {
        3
    } else if c == '4' {
        4
    } else if c == '5' {
        5
    } else if c == '6' {
        6
    } else if c == '7' {
        7
    } else if c == '8' {
        8
    } else if c == '9' {
        9
    } else {
        0
    }
}

/// The decimal numeral of `n`, without sign or leading zeros.
pub open spec fn decimal(n: nat) -> Seq<char>
    decreases n,
{
    if n < 10 {
        seq![digit_char(n)]
    } else {
        decimal(n / 10).push(digit_char(n % 10))
    }
}

/// Why a text is no `u128`.
#[derive(Clone, Copy, Debug, PartialEq, Eq)]
pub enum ParseFailure {
    /// The text is empty.
    Empty,
    /// A character is no decimal digit.
    InvalidDigit,
    /// The number does not fit in 128 bits.
    TooLarge,
}

/// Reads `digits` from left to right behind the value `acc` read so far. The
/// first character that is no digit, or the first digit with which the value
/// leaves `u128`, ends the reading.
pub open spec fn read_digits(digits: Seq<char>, acc: nat) -> Result<nat, ParseFailure>
    decreases digits.len(),
{
    if digits.len() == 0 {
        Ok(acc)
    } else if !is_digit(digits[0]) {
        Err(ParseFailure::InvalidDigit)
    } else if acc * 10 + digit_value(digits[0]) > u128::MAX {
        Err(ParseFailure::TooLarge)
    } else {
        read_digits(digits.drop_first(), acc * 10 + digit_value(digits[0]))
    }
}

/// The number that a text denotes: decimal digits, leading zeros allowed,
/// behind at most one `+`.
pub open spec fn parse_decimal(text: Seq<char>) -> Result<nat, ParseFailure> {
    if text.len() == 0 {
        Err(ParseFailure::Empty)
    } else if text.len() == 1 && (text[0] == '+' || text[0] == '-') {
        Err(ParseFailure::InvalidDigit)
    } else if text[0] == '+' {
        read_digits(text.drop_first(), 0)
    } else {
        read_digits(text, 0)
    }
}

/// What was read fits in 128 bits.
pub proof fn lemma_read_digits_bounded(digits: Seq<char>, acc: nat)
    requires
        acc <= u128::MAX,
    ensures
        read_digits(digits, acc) matches Ok(n) ==> n <= u128::MAX,
    decreases digits.len(),
{
    if digits.len() > 0 && is_digit(digits[0]) && acc * 10 + digit_value(digits[0]) <= u128::MAX {
        lemma_read_digits_bounded(digits.drop_first(), acc * 10 + digit_value(digits[0]));
    }
}

/// A number that a text denotes fits in 128 bits.
pub proof fn lemma_parse_decimal_bounded(text: Seq<char>)
    ensures
        parse_decimal(text) matches Ok(n) ==> n <= u128::MAX,
{
    lemma_read_digits_bounded(text, 0);
    if text.len() > 0 {
        lemma_read_digits_bounded(text.drop_first(), 0);
    }
}

/// What is said of a text that is no `u128`.
pub open spec fn parse_failure_text(f: ParseFailure) -> Seq<char> {
    match f {
        ParseFailure::Empty => "bad u128: cannot parse integer from empty string"@,
        ParseFailure::InvalidDigit => "bad u128: invalid digit found in string"@,
        ParseFailure::TooLarge => "bad u128: number too large to fit in target type"@,
    }
}

/// What `parse_u128` returns on `text`.
pub open spec fn parse_u128_spec(text: Seq<char>) -> Result<u128, StdErrorView> {
    match parse_decimal(text) {
        Ok(n) => Ok(n as u128),
        Err(f) => Err(StdErrorView::GenericErr { msg: parse_failure_text(f) }),
    }
}

/// Reading one more digit behind `digits` is reading `digits` and then that
/// digit.
pub proof fn lemma_read_digits_push(digits: Seq<char>, c: char, acc: nat)
    ensures
        read_digits(digits.push(c), acc) == match read_digits(digits, acc) {
            Err(f) => Err(f),
            Ok(v) => if !is_digit(c) {
                Err(ParseFailure::InvalidDigit)
            } else if v * 10 + digit_value(c) > u128::MAX {
                Err(ParseFailure::TooLarge)
            } else {
                Ok(v * 10 + digit_value(c))
            },
        },
    decreases digits.len(),
{
    let longer = digits.push(c);
    reveal_with_fuel(read_digits, 2);
    if digits.len() == 0 {
        assert(longer.drop_first() == Seq::<char>::empty());
    } else {
        assert(longer.drop_first() == digits.drop_first().push(c));
        if is_digit(digits[0]) && acc * 10 + digit_value(digits[0]) <= u128::MAX {
            lemma_read_digits_push(digits.drop_first(), c, acc * 10 + digit_value(digits[0]));
        }
    }
}

/// A numeral starts with a digit.
pub proof fn lemma_decimal_starts_with_a_digit(n: nat)
    ensures
        decimal(n).len() >= 1,
        is_digit(decimal(n)[0]),
    decreases n,
{
    if n >= 10 {
        lemma_decimal_starts_with_a_digit(n / 10);
    }
}

/// What was written as a numeral is read back as the same number.
pub proof fn lemma_decimal_reads_back(n: nat)
    requires
        n <= u128::MAX,
    ensures
        read_digits(decimal(n), 0) == Ok::<nat, ParseFailure>(n),
        parse_decimal(decimal(n)) == Ok::<nat, ParseFailure>(n),
        parse_u128_spec(decimal(n)) == Ok::<u128, StdErrorView>(n as u128),
    decreases n,
{
    lemma_decimal_starts_with_a_digit(n);
    reveal_with_fuel(read_digits, 2);
    if n < 10 {
        assert(decimal(n).drop_first() == Seq::<char>::empty());
        assert(read_digits(decimal(n).drop_first(), n) == Ok::<nat, ParseFailure>(n));
    } else {
        lemma_decimal_reads_back(n / 10);
        lemma_read_digits_push(decimal(n / 10), digit_char(n % 10), 0);
    }
}

fn digit_of(c: char) -> (r: Option<u8>)
    ensures
        is_digit(c) ==> r == Some(digit_value(c) as u8),
        !is_digit(c) ==> r is None,
{
    if c == '0' {
        Some(0)
    } else if c == '1' {
        Some(1)
    } else if c == '2' {
        Some(2)
    } else if c == '3' {
        Some(3)
    } else if c == '4' {
        Some(4)
    } else if c == '5' {
        Some(5)
    } else if c == '6' {
        Some(6)
    } else if c == '7' {
        Some(7)
    } else if c == '8' {
        Some(8)
    } else if c == '9' {
        Some(9)
    } else {
        None
    }
}

fn parse_failure(f: ParseFailure) -> (e: StdError)
    ensures
        e@ == (StdErrorView::GenericErr { msg: parse_failure_text(f) }),
{
    let msg = match f {
        ParseFailure::Empty => String::from_str("bad u128: cannot parse integer from empty string"),
        ParseFailure::InvalidDigit => String::from_str("bad u128: invalid digit found in string"),
        ParseFailure::TooLarge => String::from_str(
            "bad u128: number too large to fit in target type",
        ),
    };
    StdError::GenericErr { msg }
}

/// Reads a `u128` from decimal text.
pub fn parse_u128(s: &str) -> (r: Result<u128, StdError>)
    ensures
        match parse_u128_spec(s@) {
            Ok(v) => r == Ok::<u128, StdError>(v),
            Err(e) => r is Err && r->Err_0@ == e,
        },
{
    let n = s.unicode_len();
    if n == 0 {
        return Err(parse_failure(ParseFailure::Empty));
    }
    let first = s.get_char(0);
    if n == 1 && (first == '+' || first == '-') {
        return Err(parse_failure(ParseFailure::InvalidDigit));
    }
    let start: usize = if first == '+' {
        1
    } else {
        0
    };
    assert(s@.subrange(start as int, n as int) == if first == '+' {
        s@.drop_first()
    } else {
        s@
    });
    let mut acc: u128 = 0;
    let mut i: usize = start;
    while i < n
        invariant
            i <= n,
            n == s@.len(),
            parse_decimal(s@) == read_digits(s@.subrange(i as int, n as int), acc as nat),
        decreases n - i,
    {
        let ghost rest = s@.subrange(i as int, n as int);
        assert(rest.drop_first() == s@.subrange(i + 1, n as int));
        assert(rest[0] == s@[i as int]);
        let c = s.get_char(i);
        match digit_of(c) {
            None => {
                return Err(parse_failure(ParseFailure::InvalidDigit));
            },
            Some(d) => {
                let next = match acc.checked_mul(10) {
                    Some(m) => m.checked_add(d as u128),
                    None => None,
                };
                match next {
                    Some(v) => {
                        acc = v;
                    },
                    None => {
                        return Err(parse_failure(ParseFailure::TooLarge));
                    },
                }
            },
        }
        i = i + 1;
    }
    assert(s@.subrange(n as int, n as int).len() == 0);
    Ok(acc)
}

fn digit_text(d: u8) -> (r: &'static str)
    requires
        d < 10,
    ensures
        r@ == seq![digit_char(d as nat)],
{
    proof {
        reveal_strlit("0");
        reveal_strlit("1");
        reveal_strlit("2");
        reveal_strlit("3");
        reveal_strlit("4");
        reveal_strlit("5");
        reveal_strlit("6");
        reveal_strlit("7");
        reveal_strlit("8");
        reveal_strlit("9");
    }
    let r = if d == 0 {
        "0"
    } else if d == 1 {
        "1"
    } else if d == 2 {
        "2"
    } else if d == 3 {
        "3"
    } else if d == 4 {
        "4"
    } else if d == 5 {
        "5"
    } else if d == 6 {
        "6"
    } else if d == 7 {
        "7"
    } else if d == 8 {
        "8"
    } else {
        "9"
    };
    assert(r@ =~= seq![digit_char(d as nat)]);
    r
}

fn push_decimal(s: &mut String, x: u128)
    ensures
        final(s)@ == old(s)@ + decimal(x as nat),
    decreases x,
{
    if x >= 10 {
        push_decimal(s, x / 10);
    }
    let d = (x % 10) as u8;
    s.append(digit_text(d));
    assert(final(s)@ =~= old(s)@ + decimal(x as nat));
}

/// Writes a `u128` as decimal text.
pub fn to_string_u128(x: u128) -> (s: String)
    ensures
        s@ == decimal(x as nat),
{
    let mut s = String::new();
    push_decimal(&mut s, x);
    assert(s@ =~= decimal(x as nat));
    s
}

/// Why a scaled ratio has no value.
#[derive(Clone, Copy, Debug, PartialEq, Eq)]
pub enum RatioFailure {
    /// The denominator is zero.
    DivideByZero,
    /// The quotient does not fit in 128 bits.
    Overflow,
}

/// `a * numerator / denominator`, rounded down, where it fits in 128 bits
/// and the denominator is not zero.
pub open spec fn multiply_ratio_spec(a: u128, numerator: u128, denominator: u128) -> Result<
    u128,
    RatioFailure,
> {
    if denominator == 0 {
        Err(RatioFailure::DivideByZero)
    } else if (a * numerator) / (denominator as int) > u128::MAX {
        Err(RatioFailure::Overflow)
    } else {
        Ok(((a * numerator) / (denominator as int)) as u128)
    }
}

/// Calls `cosmwasm_std::Uint128::checked_multiply_ratio`, which multiplies in
/// 256 bits and divides rounding down. The contract repeats what that method
/// documents: the floored quotient, `DivideByZero` for a zero denominator,
/// `Overflow` where the quotient leaves 128 bits.
#[verifier::external_body]
fn checked_multiply_ratio(a: u128, numerator: u128, denominator: u128) -> (r: Result<
    u128,
    RatioFailure,
>)
    ensures
        r == multiply_ratio_spec(a, numerator, denominator),
{
    match cosmwasm_std::Uint128::new(a).checked_multiply_ratio(numerator, denominator) {
        Ok(q) => Ok(q.u128()),
        Err(cosmwasm_std::CheckedMultiplyRatioError::DivideByZero) => Err(
            RatioFailure::DivideByZero,
        ),
        Err(cosmwasm_std::CheckedMultiplyRatioError::Overflow) => Err(RatioFailure::Overflow),
    }
}

/// `a * numerator / denominator`, rounded down; `None` where the quotient
/// does not fit in 128 bits.
pub fn multiply_ratio(a: u128, numerator: u128, denominator: u128) -> (r: Option<u128>)
    requires
        denominator > 0,
    ensures
        r == (if (a * numerator) / (denominator as int) <= u128::MAX {
            Some(((a * numerator) / (denominator as int)) as u128)
        } else {
            None
        }),
{
    match checked_multiply_ratio(a, numerator, denominator) {
        Ok(q) => Some(q),
        Err(_) => None,
    }
}

/// What a fixed-point amount cannot hold.
pub open spec fn overflow_text() -> Seq<char> {
    "arithmetic overflow"@
}

/// The error of an amount that leaves 128 bits, as a value.
pub open spec fn overflow_error() -> StdErrorView {
    StdErrorView::GenericErr { msg: overflow_text() }
}

/// The error of an amount that leaves 128 bits.
pub fn overflow() -> (e: StdError)
    ensures
        e@ == overflow_error(),
{
    StdError::GenericErr { msg: String::from_str("arithmetic overflow") }
}

/// By how much an index grows in `dt` seconds at `rate_apr_bps` basis points
/// a year: simple interest on the index, rounded down.
pub open spec fn index_growth(index: nat, dt: nat, rate_apr_bps: nat) -> nat {
    (index * (rate_apr_bps * dt)) / ((BPS_SCALE * SECONDS_PER_YEAR) as nat)
}

/// The index after `dt` seconds.
pub open spec fn grown_index(index: nat, dt: nat, rate_apr_bps: nat) -> nat {
    index + index_growth(index, dt, rate_apr_bps)
}

/// The interest index after `dt` seconds at `rate_apr_bps` basis points a
/// year. Fails where the new index leaves 128 bits.
pub fn accrue_index(current_index: u128, dt: u64, rate_apr_bps: u32) -> (r: Result<u128, StdError>)
    ensures
        grown_index(current_index as nat, dt as nat, rate_apr_bps as nat) <= u128::MAX ==> r
            == Ok::<u128, StdError>(
            grown_index(current_index as nat, dt as nat, rate_apr_bps as nat) as u128,
        ),
        grown_index(current_index as nat, dt as nat, rate_apr_bps as nat) > u128::MAX ==> r is Err
            && r->Err_0@ == overflow_error(),
{
    assert(rate_apr_bps * dt <= 0xffff_ffff * 0xffff_ffff_ffff_ffff) by (nonlinear_arith)
        requires
            rate_apr_bps <= 0xffff_ffff,
            dt <= 0xffff_ffff_ffff_ffff,
    ;
    let weight: u128 = (rate_apr_bps as u128) * (dt as u128);
    let growth = multiply_ratio(current_index, weight, BPS_SCALE * SECONDS_PER_YEAR);
    match growth {
        Some(g) => match current_index.checked_add(g) {
            Some(next) => Ok(next),
            None => Err(overflow()),
        },
        None => Err(overflow()),
    }
}

} // verus!
