//! Whole numbers written in decimal digits, as tags hold them.

use vstd::prelude::*;

verus! {

/// Why a text is no whole number of 32 bits.
#[derive(Debug, Clone, Copy, PartialEq, Eq, Structural, Hash)]
pub enum IntegerError {
    /// The text is empty.
    Empty,
    /// A character is no decimal digit, or a sign stands alone.
    InvalidDigit,
    /// The number is greater than 2147483647.
    PosOverflow,
    /// The number is less than -2147483648.
    NegOverflow,
}

impl IntegerError {
    /// The error in words.
    pub open spec fn message_spec(self) -> Seq<char> {
        match self {
            IntegerError::Empty => "cannot parse integer from empty string"@,
            IntegerError::InvalidDigit => "invalid digit found in string"@,
            IntegerError::PosOverflow => "number too large to fit in target type"@,
            IntegerError::NegOverflow => "number too small to fit in target type"@,
        }
    }

    /// The error in words.
    pub fn message(&self) -> (result: String)
        ensures
            result@ == self.message_spec(),
    {
        match self {
            IntegerError::Empty => "cannot parse integer from empty string".to_owned(),
            IntegerError::InvalidDigit => "invalid digit found in string".to_owned(),
            IntegerError::PosOverflow => "number too large to fit in target type".to_owned(),
            IntegerError::NegOverflow => "number too small to fit in target type".to_owned(),
        }
    }
}

/// Whether `c` is one of the digits `0` to `9`.
pub open spec fn is_digit(c: char) -> bool {
    0x30 <= c as u32 <= 0x39
}

/// The number a digit stands for.
pub open spec fn digit_value(c: char) -> int {
    c as u32 - 0x30
}

/// The number that a run of digits spells.
pub open spec fn magnitude(digits: Seq<char>) -> int
    decreases digits.len(),
{
    if digits.len() == 0 {
        0
    } else {
        magnitude(digits.drop_last()) * 10 + digit_value(digits.last())
    }
}

/// Reading `digits` from the left onto the number `so_far`: each digit is
/// appended to it, away from zero for a positive number and below zero for a
/// negative one. The first character that is no digit, or the first digit that
/// takes the number out of 32 bits, ends the reading with its error.
pub open spec fn accumulate(digits: Seq<char>, negative: bool, so_far: int) -> Result<
    int,
    IntegerError,
>
    decreases digits.len(),
{
    if digits.len() == 0 {
        Ok(so_far)
    } else if !is_digit(digits[0]) {
        Err(IntegerError::InvalidDigit)
    } else {
        let next = if negative {
            so_far * 10 - digit_value(digits[0])
        } else {
            so_far * 10 + digit_value(digits[0])
        };
        if next > i32::MAX {
            Err(IntegerError::PosOverflow)
        } else if next < i32::MIN {
            Err(IntegerError::NegOverflow)
        } else {
            accumulate(digits.skip(1), negative, next)
        }
    }
}

/// The digits of `text`: all of it but a leading sign.
pub open spec fn digits_of(text: Seq<char>) -> Seq<char> {
    if text.len() > 0 && (text[0] == '-' || text[0] == '+') {
        text.skip(1)
    } else {
        text
    }
}

/// The number that `text` spells: an optional `+` or `-`, then at least one
/// digit, and nothing else; or the reason why it spells none.
pub open spec fn parse_decimal_spec(text: Seq<char>) -> Result<int, IntegerError> {
    if text.len() == 0 {
        Err(IntegerError::Empty)
    } else if digits_of(text).len() == 0 {
        Err(IntegerError::InvalidDigit)
    } else {
        accumulate(digits_of(text), text[0] == '-', 0)
    }
}

/// A result with its number taken as a mathematical integer.
pub open spec fn widen<E>(result: Result<i32, E>) -> Result<int, E> {
    match result {
        Ok(number) => Ok(number as int),
        Err(error) => Err(error),
    }
}

/// Reading is a matter of the digits' value: where `accumulate` succeeds from
/// zero, every character is a digit and the result is the number they spell,
/// negated for a negative number, which fits in 32 bits; and where every
/// character is a digit and that number fits in 32 bits, it succeeds.
pub proof fn lemma_accumulate_value(digits: Seq<char>, negative: bool)
    ensures
        accumulate(digits, negative, 0) matches Ok(number) ==> {
            &&& forall|k: int| 0 <= k < digits.len() ==> is_digit(#[trigger] digits[k])
            &&& number == signed(magnitude(digits), negative)
            &&& i32::MIN <= number <= i32::MAX
        },
        (forall|k: int| 0 <= k < digits.len() ==> is_digit(#[trigger] digits[k])) && i32::MIN
            <= signed(magnitude(digits), negative) <= i32::MAX ==> accumulate(digits, negative, 0)
            == Ok::<int, IntegerError>(signed(magnitude(digits), negative)),
{
    lemma_accumulate_from(digits, negative, 0, 0);
    assert(digits.take(0) =~= Seq::<char>::empty());
    assert(digits.skip(0) =~= digits);
    assert(digits.take(digits.len() as int) =~= digits);
}

/// What `parse_decimal_spec` accepts, said directly: a text is a number where
/// it holds at least one digit after an optional sign, nothing but digits, and
/// the number they spell, negated after a `-`, fits in 32 bits; and that
/// number is what it gives.
pub proof fn lemma_parse_decimal_value(text: Seq<char>)
    ensures
        parse_decimal_spec(text) is Ok <==> {
            &&& digits_of(text).len() > 0
            &&& forall|k: int|
                0 <= k < digits_of(text).len() ==> is_digit(#[trigger] digits_of(text)[k])
            &&& i32::MIN <= signed(magnitude(digits_of(text)), text[0] == '-') <= i32::MAX
        },
        parse_decimal_spec(text) matches Ok(number) ==> number == signed(
            magnitude(digits_of(text)),
            text[0] == '-',
        ),
{
    if text.len() > 0 && digits_of(text).len() > 0 {
        lemma_accumulate_value(digits_of(text), text[0] == '-');
    }
}

/// A magnitude with its sign.
pub open spec fn signed(magnitude: int, negative: bool) -> int {
    if negative {
        -magnitude
    } else {
        magnitude
    }
}

/// The number spelt by all digits but the last is no greater than the whole.
proof fn lemma_magnitude_grows(digits: Seq<char>, upto: int)
    requires
        0 <= upto <= digits.len(),
        forall|k: int| 0 <= k < digits.len() ==> is_digit(#[trigger] digits[k]),
    ensures
        0 <= magnitude(digits.take(upto)) <= magnitude(digits),
    decreases digits.len() - upto,
{
    lemma_magnitude_nonnegative(digits.take(upto));
    if upto == digits.len() {
        assert(digits.take(upto) =~= digits);
    } else {
        lemma_magnitude_grows(digits, upto + 1);
        let longer = digits.take(upto + 1);
        assert(longer.drop_last() =~= digits.take(upto));
        assert(is_digit(digits[upto]));
        assert(longer.last() == digits[upto]);
    }
}

/// Digits spell no negative number.
proof fn lemma_magnitude_nonnegative(digits: Seq<char>)
    requires
        forall|k: int| 0 <= k < digits.len() ==> is_digit(#[trigger] digits[k]),
    ensures
        0 <= magnitude(digits),
    decreases digits.len(),
{
    if digits.len() > 0 {
        lemma_magnitude_nonnegative(digits.drop_last());
    }
}

/// The induction behind `lemma_accumulate_value`: reading on from position
/// `at`, with the digits before it already in `so_far`.
proof fn lemma_accumulate_from(digits: Seq<char>, negative: bool, at: int, so_far: int)
    requires
        0 <= at <= digits.len(),
        forall|k: int| 0 <= k < at ==> is_digit(#[trigger] digits[k]),
        so_far == signed(magnitude(digits.take(at)), negative),
        i32::MIN <= so_far <= i32::MAX,
    ensures
        accumulate(digits.skip(at), negative, so_far) matches Ok(number) ==> {
            &&& forall|k: int| 0 <= k < digits.len() ==> is_digit(#[trigger] digits[k])
            &&& number == signed(magnitude(digits), negative)
            &&& i32::MIN <= number <= i32::MAX
        },
        (forall|k: int| 0 <= k < digits.len() ==> is_digit(#[trigger] digits[k])) && i32::MIN
            <= signed(magnitude(digits), negative) <= i32::MAX ==> accumulate(
            digits.skip(at),
            negative,
            so_far,
        ) == Ok::<int, IntegerError>(signed(magnitude(digits), negative)),
    decreases digits.len() - at,
{
    let rest = digits.skip(at);
    if at == digits.len() {
        assert(digits.take(at) =~= digits);
    } else {
        assert(rest[0] == digits[at]);
        let longer = digits.take(at + 1);
        assert(longer.drop_last() =~= digits.take(at));
        assert(longer.last() == digits[at]);
        assert(rest.skip(1) =~= digits.skip(at + 1));
        if is_digit(digits[at]) {
            let next = signed(magnitude(longer), negative);
            if i32::MIN <= next <= i32::MAX {
                lemma_accumulate_from(digits, negative, at + 1, next);
            } else if forall|k: int| 0 <= k < digits.len() ==> is_digit(#[trigger] digits[k]) {
                lemma_magnitude_grows(digits, at + 1);
            }
        }
    }
}

/// The whole number that `text` spells in decimal digits.
pub fn parse_decimal(text: &str) -> (result: Result<i32, IntegerError>)
    ensures
        widen(result) == parse_decimal_spec(text@),
{
    if text.is_empty() {
        return Err(IntegerError::Empty);
    }
    let ghost digits = digits_of(text@);
    let ghost offset: int = text@.len() - digits.len();
    let mut negative: bool = false;
    let mut first: bool = true;
    let mut any: bool = false;
    let mut so_far: i64 = 0;
    proof {
        assert(text@.skip(0) =~= text@);
        assert(digits.skip(0) =~= digits);
    }
    for c in iter: text.chars()
        invariant
            iter.seq() == text@,
            text@.len() > 0,
            0 <= offset <= 1,
            digits == digits_of(text@),
            digits == text@.skip(offset),
            first <==> iter.index() == 0,
            !first ==> negative == (text@[0] == '-'),
            first ==> !negative && !any && so_far == 0,
            !first ==> iter.index() >= offset,
            any <==> iter.index() > offset,
            i32::MIN <= so_far <= i32::MAX,
            !first ==> accumulate(digits, negative, 0) == accumulate(
                digits.skip(iter.index() - offset),
                negative,
                so_far as int,
            ),
    {
        assert(c == text@[iter.index() as int]);
        if first && (c == '-' || c == '+') {
            negative = c == '-';
            first = false;
            assert(offset == 1);
            assert(digits.skip(0) =~= digits);
        } else {
            if first {
                first = false;
                assert(offset == 0);
            }
            let code: u32 = c as u32;
            let ghost rest = digits.skip(iter.index() - offset);
            assert(rest[0] == c);
            assert(rest.skip(1) =~= digits.skip(iter.index() + 1 - offset));
            if code < 0x30 || code > 0x39 {
                return Err(IntegerError::InvalidDigit);
            }
            let value: i64 = (code - 0x30) as i64;
            let next: i64 = if negative {
                so_far * 10 - value
            } else {
                so_far * 10 + value
            };
            if next > 2147483647 {
                return Err(IntegerError::PosOverflow);
            }
            if next < -2147483648 {
                return Err(IntegerError::NegOverflow);
            }
            so_far = next;
            any = true;
        }
    }
    if !any {
        return Err(IntegerError::InvalidDigit);
    }
    assert(digits.skip(digits.len() as int) =~= Seq::<char>::empty());
    Ok(so_far as i32)
}

} // verus!
