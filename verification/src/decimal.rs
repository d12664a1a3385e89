//! Decimal notation for 64-bit unsigned integers, the form in which shards
//! and buckets appear in request paths.

use std::num::ParseIntError;
use vstd::prelude::*;

verus! {

#[verifier::external_type_specification]
#[verifier::external_body]
pub struct ExParseIntError(ParseIntError);

/// Whether `c` is one of the digits `0` to `9`.
pub open spec fn spec_is_digit(c: char) -> bool {
    48 <= c as u32 <= 57
}

/// The number that a string of digits denotes, read as decimal.
pub open spec fn spec_decimal_value(digits: Seq<char>) -> nat
    decreases digits.len(),
{
    if digits.len() == 0 {
        0
    } else {
        10 * spec_decimal_value(digits.drop_last()) + (digits.last() as u32 - 48) as nat
    }
}

/// The digits of a numeral: the numeral without a leading plus sign.
pub open spec fn spec_digits_of(input: Seq<char>) -> Seq<char> {
    if input.len() > 0 && input[0] == '+' {
        input.skip(1)
    } else {
        input
    }
}

/// Whether `input` denotes a 64-bit unsigned integer: an optional plus
/// sign, then at least one digit and nothing but digits, with a value of at
/// most `u64::MAX`.
pub open spec fn spec_is_decimal_u64(input: Seq<char>) -> bool {
    let digits = spec_digits_of(input);
    &&& digits.len() > 0
    &&& forall|i: int| 0 <= i < digits.len() ==> spec_is_digit(#[trigger] digits[i])
    &&& spec_decimal_value(digits) <= u64::MAX
}

/// Calls `u64::from_str` of the standard library. The contract claims what
/// its documentation says: the string is an optional plus sign followed by
/// decimal digits only; an empty string, any other character and a value
/// that does not fit are errors.
#[verifier::external_body]
pub(crate) fn parse_u64(input: &str) -> (result: Result<u64, ParseIntError>)
    ensures
        result is Ok <==> spec_is_decimal_u64(input@),
        result is Ok ==> result->Ok_0 == spec_decimal_value(spec_digits_of(input@)),
{
    <u64 as core::str::FromStr>::from_str(input)
}

} // verus!
