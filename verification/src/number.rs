//! Parsing of the robot number.

use vstd::prelude::*;
use vstd::string::StringExecFns;

verus! {

/// The largest robot number: numbers have at most four decimal digits.
pub const MAX_ROBOT_NUMBER: i128 = 9999;

/// Why a text is not the decimal notation of an `i128`.
#[derive(Clone, Copy, Debug, PartialEq, Eq, Structural)]
pub enum ParseFailure {
    /// The text is empty.
    Empty,
    /// The text holds a character that is no digit where a digit must stand,
    /// or it is a sign with no digit behind it.
    InvalidDigit,
    /// The digits denote a number above `i128::MAX`.
    PosOverflow,
    /// The digits behind a minus sign denote a number below `i128::MIN`.
    NegOverflow,
}

/// Why a text is not a robot number.
#[derive(Clone, Copy, Debug, PartialEq, Eq, Structural)]
pub enum NumberError {
    /// The text is not the decimal notation of an `i128`.
    InvalidFormat(ParseFailure),
    /// The number is above `MAX_ROBOT_NUMBER`.
    TooLarge,
    /// The number is below zero.
    Negative,
}

impl ParseFailure {
    /// The name of this failure, as it stands in a message.
    pub open spec fn name_spec(self) -> Seq<char> {
        match self {
            ParseFailure::Empty => "Empty"@,
            ParseFailure::InvalidDigit => "InvalidDigit"@,
            ParseFailure::PosOverflow => "PosOverflow"@,
            ParseFailure::NegOverflow => "NegOverflow"@,
        }
    }

    /// The name of this failure, as it stands in a message.
    pub fn name(&self) -> (text: &'static str)
        ensures
            text@ == self.name_spec(),
    {
        match self {
            ParseFailure::Empty => "Empty",
            ParseFailure::InvalidDigit => "InvalidDigit",
            ParseFailure::PosOverflow => "PosOverflow",
            ParseFailure::NegOverflow => "NegOverflow",
        }
    }
}

impl NumberError {
    /// The text shown for this fault. For a text that is no number it names
    /// the failure in brackets.
    pub open spec fn message_spec(self) -> Seq<char> {
        match self {
            NumberError::InvalidFormat(failure) => "Could not parse robot number ("@
                + failure.name_spec() + ")."@,
            NumberError::TooLarge => "Robot number too large (>9999)."@,
            NumberError::Negative => "Robot number must be above zero."@,
        }
    }

    /// The text shown for this fault.
    pub fn message(&self) -> (text: String)
        ensures
            text@ == self.message_spec(),
    {
        match self {
            NumberError::InvalidFormat(failure) => {
                let mut text = String::from_str("Could not parse robot number (");
                text.append(failure.name());
                text.append(").");
                text
            },
            NumberError::TooLarge => String::from_str("Robot number too large (>9999)."),
            NumberError::Negative => String::from_str("Robot number must be above zero."),
        }
    }
}

/// Whether `c` is one of the decimal digits `0` to `9`.
pub open spec fn is_digit(c: char) -> bool {
    '0' <= c <= '9'
}

/// The number that the digit `c` stands for.
pub open spec fn digit_value(c: char) -> int {
    c as int - '0' as int
}

/// The number that a sequence of digits denotes in base ten, most significant
/// digit first. The empty sequence denotes zero.
pub open spec fn decimal_value(s: Seq<char>) -> int
    decreases s.len(),
{
    if s.len() == 0 {
        0
    } else {
        10 * decimal_value(s.drop_last()) + digit_value(s.last())
    }
}

/// Whether every character of `s` is a decimal digit.
pub open spec fn all_digits(s: Seq<char>) -> bool {
    forall|i: int| 0 <= i < s.len() ==> is_digit(#[trigger] s[i])
}

/// How many digits stand at the front of `s` before its first character that
/// is no digit.
pub open spec fn digit_run(s: Seq<char>) -> nat
    decreases s.len(),
{
    if s.len() == 0 || !is_digit(s.first()) {
        0
    } else {
        1 + digit_run(s.drop_first())
    }
}

/// Whether `s` begins with a plus or a minus sign.
pub open spec fn has_sign(s: Seq<char>) -> bool {
    s.len() > 0 && (s[0] == '+' || s[0] == '-')
}

/// Whether `s` begins with a minus sign.
pub open spec fn is_negative(s: Seq<char>) -> bool {
    s.len() > 0 && s[0] == '-'
}

/// What is left of `s` without its sign, if it has one.
pub open spec fn unsigned_part(s: Seq<char>) -> Seq<char> {
    if has_sign(s) {
        s.drop_first()
    } else {
        s
    }
}

/// Whether `s` is a decimal numeral: an optional sign and then one or more
/// digits, with nothing else before, between or behind them.
pub open spec fn is_numeral(s: Seq<char>) -> bool {
    unsigned_part(s).len() > 0 && all_digits(unsigned_part(s))
}

/// The integer that the numeral `s` denotes.
pub open spec fn numeral_value(s: Seq<char>) -> int {
    if is_negative(s) {
        -decimal_value(unsigned_part(s))
    } else {
        decimal_value(unsigned_part(s))
    }
}

/// Whether `n` is the value of some `i128`.
pub open spec fn fits_i128(n: int) -> bool {
    i128::MIN <= n <= i128::MAX
}

/// The result of reading `s` as the decimal notation of an `i128`.
///
/// The text is read from left to right, and the first fault met decides the
/// failure: digits that already leave the range of `i128` give an overflow
/// even if a character that is no digit stands further to the right.
pub open spec fn parse_decimal_spec(s: Seq<char>) -> Result<i128, ParseFailure> {
    let body = unsigned_part(s);
    let run = digit_run(body);
    let magnitude = decimal_value(body.take(run as int));
    let value = if is_negative(s) {
        -magnitude
    } else {
        magnitude
    };
    if s.len() == 0 {
        Err(ParseFailure::Empty)
    } else if body.len() == 0 {
        Err(ParseFailure::InvalidDigit)
    } else if value > i128::MAX {
        Err(ParseFailure::PosOverflow)
    } else if value < i128::MIN {
        Err(ParseFailure::NegOverflow)
    } else if run < body.len() {
        Err(ParseFailure::InvalidDigit)
    } else {
        Ok(value as i128)
    }
}

/// The result of reading `s` as a robot number.
pub open spec fn robot_number_spec(s: Seq<char>) -> Result<i128, NumberError> {
    match parse_decimal_spec(s) {
        Err(failure) => Err(NumberError::InvalidFormat(failure)),
        Ok(n) => if n > MAX_ROBOT_NUMBER {
            Err(NumberError::TooLarge)
        } else if n < 0 {
            Err(NumberError::Negative)
        } else {
            Ok(n)
        },
    }
}

/// A run of digits ends where the first character that is no digit stands.
pub proof fn lemma_digit_run_ends(s: Seq<char>, k: int)
    requires
        0 <= k <= s.len(),
        all_digits(s.take(k)),
        k < s.len() ==> !is_digit(s[k]),
    ensures
        digit_run(s) == k,
    decreases k,
{
    if k == 0 {
    } else {
        assert(s.take(k)[0] == s[0]);
        let rest = s.drop_first();
        assert forall|i: int| 0 <= i < rest.take(k - 1).len() implies is_digit(
            #[trigger] rest.take(k - 1)[i],
        ) by {
            assert(rest.take(k - 1)[i] == s.take(k)[i + 1]);
        }
        lemma_digit_run_ends(rest, k - 1);
    }
}

/// A run of digits is at least as long as any front part of digits only.
pub proof fn lemma_digit_run_covers(s: Seq<char>, k: int)
    requires
        0 <= k <= s.len(),
        all_digits(s.take(k)),
    ensures
        k <= digit_run(s) <= s.len(),
        all_digits(s.take(digit_run(s) as int)),
    decreases s.len(),
{
    if s.len() == 0 || !is_digit(s.first()) {
        if k > 0 {
            assert(s.take(k)[0] == s[0]);
        }
    } else {
        let rest = s.drop_first();
        let j = if k > 0 {
            k - 1
        } else {
            0
        };
        assert forall|i: int| 0 <= i < rest.take(j).len() implies is_digit(
            #[trigger] rest.take(j)[i],
        ) by {
            assert(rest.take(j)[i] == s.take(k)[i + 1]);
        }
        lemma_digit_run_covers(rest, j);
        let run = digit_run(s) as int;
        assert forall|i: int| 0 <= i < s.take(run).len() implies is_digit(
            #[trigger] s.take(run)[i],
        ) by {
            if i > 0 {
                assert(s.take(run)[i] == rest.take(run - 1)[i - 1]);
            }
        }
    }
}

/// Reading more digits never makes the number smaller, and never negative.
pub proof fn lemma_decimal_value_grows(s: Seq<char>, i: int, j: int)
    requires
        0 <= i <= j <= s.len(),
        all_digits(s.take(j)),
    ensures
        0 <= decimal_value(s.take(i)) <= decimal_value(s.take(j)),
    decreases j,
{
    if j == 0 {
        assert(s.take(i) =~= s.take(j));
    } else {
        assert(s.take(j).drop_last() =~= s.take(j - 1));
        assert(s.take(j).last() == s.take(j)[j - 1]);
        assert forall|x: int| 0 <= x < s.take(j - 1).len() implies is_digit(
            #[trigger] s.take(j - 1)[x],
        ) by {
            assert(s.take(j - 1)[x] == s.take(j)[x]);
        }
        if i == j {
            lemma_decimal_value_grows(s, j - 1, j - 1);
        } else {
            lemma_decimal_value_grows(s, i, j - 1);
        }
    }
}

/// A numeral reads as its value where an `i128` can hold it and as an overflow
/// where none can; a text that is no numeral does not read as a number.
pub proof fn lemma_parse_decimal_of_numeral(s: Seq<char>)
    ensures
        is_numeral(s) && fits_i128(numeral_value(s)) ==> parse_decimal_spec(s) == Ok::<
            i128,
            ParseFailure,
        >(numeral_value(s) as i128),
        is_numeral(s) && numeral_value(s) > i128::MAX ==> (parse_decimal_spec(s) matches Err(
            ParseFailure::PosOverflow,
        )),
        is_numeral(s) && numeral_value(s) < i128::MIN ==> (parse_decimal_spec(s) matches Err(
            ParseFailure::NegOverflow,
        )),
        !is_numeral(s) ==> parse_decimal_spec(s) is Err,
{
    let body = unsigned_part(s);
    if is_numeral(s) {
        assert(body.take(body.len() as int) =~= body);
        lemma_digit_run_ends(body, body.len() as int);
    } else if body.len() > 0 {
        lemma_digit_run_covers(body, 0);
        if digit_run(body) == body.len() {
            assert(body.take(body.len() as int) =~= body);
        }
    }
}

/// How many characters behind the sign have been read once `index` characters
/// of a text have been read.
spec fn digits_read(signed: bool, index: int) -> int {
    if signed && index > 0 {
        index - 1
    } else {
        index
    }
}

/// Reads `s` as the decimal notation of an `i128`: an optional sign, then
/// digits only.
pub fn parse_decimal(s: &str) -> (r: Result<i128, ParseFailure>)
    ensures
        r == parse_decimal_spec(s@),
{
    if s.is_empty() {
        return Err(ParseFailure::Empty);
    }
    let first = s.get_char(0);
    let signed = first == '+' || first == '-';
    let negative = first == '-';
    let ghost body = unsigned_part(s@);
    let mut at_sign = signed;
    let mut any_digit = false;
    let mut acc: i128 = 0;
    for c in it: s.chars()
        invariant
            it.seq() == s@,
            s@.len() > 0,
            signed == has_sign(s@),
            negative == is_negative(s@),
            body == unsigned_part(s@),
            at_sign == (signed && it.index() == 0),
            0 <= digits_read(signed, it.index()) <= body.len(),
            any_digit == (digits_read(signed, it.index()) > 0),
            all_digits(body.take(digits_read(signed, it.index()))),
            acc == if negative {
                -decimal_value(body.take(digits_read(signed, it.index())))
            } else {
                decimal_value(body.take(digits_read(signed, it.index())))
            },
    {
        if at_sign {
            at_sign = false;
        } else {
            let ghost k = digits_read(signed, it.index());
            assert(c == body[k]);
            if !('0' <= c && c <= '9') {
                proof {
                    lemma_digit_run_ends(body, k);
                }
                return Err(ParseFailure::InvalidDigit);
            }
            let digit = (c as u32 - '0' as u32) as i128;
            proof {
                assert(body.take(k + 1).drop_last() =~= body.take(k));
                assert(body.take(k + 1).last() == c);
                assert forall|i: int| 0 <= i < body.take(k + 1).len() implies is_digit(
                    #[trigger] body.take(k + 1)[i],
                ) by {
                    if i < k {
                        assert(body.take(k + 1)[i] == body.take(k)[i]);
                    }
                }
                lemma_digit_run_covers(body, k + 1);
                lemma_decimal_value_grows(body, k + 1, digit_run(body) as int);
            }
            let next = match acc.checked_mul(10) {
                None => None,
                Some(tenfold) => if negative {
                    tenfold.checked_sub(digit)
                } else {
                    tenfold.checked_add(digit)
                },
            };
            match next {
                None => {
                    return Err(
                        if negative {
                            ParseFailure::NegOverflow
                        } else {
                            ParseFailure::PosOverflow
                        },
                    );
                },
                Some(value) => {
                    acc = value;
                    any_digit = true;
                },
            }
        }
    }
    if !any_digit {
        return Err(ParseFailure::InvalidDigit);
    }
    proof {
        assert(body.take(body.len() as int) =~= body);
        lemma_digit_run_ends(body, body.len() as int);
    }
    Ok(acc)
}

/// Reads `st` as a robot number: a decimal `i128` from zero to
/// `MAX_ROBOT_NUMBER`.
pub fn parse_robot_number(st: &str) -> (r: Result<i128, NumberError>)
    ensures
        r == robot_number_spec(st@),
        (r matches Err(NumberError::InvalidFormat(_))) <==> !is_numeral(st@) || !fits_i128(
            numeral_value(st@),
        ),
        (r matches Err(NumberError::TooLarge)) <==> is_numeral(st@) && MAX_ROBOT_NUMBER
            < numeral_value(st@) <= i128::MAX,
        (r matches Err(NumberError::Negative)) <==> is_numeral(st@) && i128::MIN <= numeral_value(
            st@,
        ) < 0,
        r is Ok <==> is_numeral(st@) && 0 <= numeral_value(st@) <= MAX_ROBOT_NUMBER,
        r matches Ok(n) ==> n == numeral_value(st@),
{
    proof {
        lemma_parse_decimal_of_numeral(st@);
    }
    match parse_decimal(st) {
        Err(failure) => Err(NumberError::InvalidFormat(failure)),
        Ok(n) => if n > MAX_ROBOT_NUMBER {
            Err(NumberError::TooLarge)
        } else if n < 0 {
            Err(NumberError::Negative)
        } else {
            Ok(n)
        },
    }
}

} // verus!
