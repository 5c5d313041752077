//! The rules for the numbers typed into the form: which texts are accepted
//! and which message explains a refusal.
//!
//! Reading a text as a binary64 floating-point number, and comparing that
//! number with zero and with one hundred, are done by the caller; the
//! outcome comes in as a [`NumberReading`].

use vstd::prelude::*;

use crate::text::{trim, trim_view};

verus! {

/// What a trimmed text reads as when it is parsed as a binary64
/// floating-point number.
#[derive(Clone, Copy, Debug, PartialEq, Eq, Structural)]
pub enum NumberReading {
    /// The text is not a number.
    NotANumber,
    /// The text is the number with the IEEE 754 bit pattern `bits`;
    /// `below_zero` and `at_least_hundred` say how it compares with `0.0`
    /// and with `100.0` (both are false for NaN).
    Number { bits: u64, below_zero: bool, at_least_hundred: bool },
}

/// An outcome with its message taken as plain characters.
pub open spec fn outcome_view(outcome: Result<u64, String>) -> Result<u64, Seq<char>> {
    match outcome {
        Ok(bits) => Ok(bits),
        Err(message) => Err(message@),
    }
}

/// The name of the fee field, as the messages call it.
pub open spec fn fee_field_name() -> Seq<char> {
    "手数料率"@
}

/// The message for a fee of one hundred percent or more.
pub open spec fn fee_too_large_message() -> Seq<char> {
    "手数料率は100未満で入力してください"@
}

/// The outcome for the text `text` of the field `field` that reads as
/// `reading`: a request for input when the text is blank, a refusal when it
/// is not a number or is below zero, and the number's bit pattern otherwise.
pub open spec fn non_negative_number_outcome(
    field: Seq<char>,
    text: Seq<char>,
    reading: NumberReading,
) -> Result<u64, Seq<char>> {
    if trim_view(text).len() == 0 {
        Err(field + "を入力してください"@)
    } else {
        match reading {
            NumberReading::NotANumber => Err(field + "は数値で入力してください"@),
            NumberReading::Number { bits, below_zero, .. } => if below_zero {
                Err(field + "は0以上で入力してください"@)
            } else {
                Ok(bits)
            },
        }
    }
}

/// The outcome for the fee text `text` that reads as `reading`: that of a
/// non-negative number, refused as well when it is one hundred or more.
pub open spec fn fee_percent_outcome(text: Seq<char>, reading: NumberReading) -> Result<
    u64,
    Seq<char>,
> {
    match non_negative_number_outcome(fee_field_name(), text, reading) {
        Ok(bits) => if reading matches NumberReading::Number { at_least_hundred: true, .. } {
            Err(fee_too_large_message())
        } else {
            Ok(bits)
        },
        Err(message) => Err(message),
    }
}

/// `first` followed by `second`.
fn joined(first: &str, second: &str) -> (text: String)
    ensures
        text@ == first@ + second@,
{
    let mut text = String::from_str(first);
    text.append(second);
    text
}

/// Accepts the text `text` of the field `field_name` as a non-negative
/// number; `reading` is what the trimmed text reads as.
pub fn parse_non_negative_number(field_name: &str, text: &str, reading: NumberReading) -> (outcome:
    Result<u64, String>)
    ensures
        outcome_view(outcome) == non_negative_number_outcome(field_name@, text@, reading),
{
    if trim(text).is_empty() {
        return Err(joined(field_name, "を入力してください"));
    }
    match reading {
        NumberReading::NotANumber => Err(joined(field_name, "は数値で入力してください")),
        NumberReading::Number { bits, below_zero, .. } => {
            if below_zero {
                Err(joined(field_name, "は0以上で入力してください"))
            } else {
                Ok(bits)
            }
        },
    }
}

/// Accepts the text `text` as a fee percentage: a non-negative number below
/// one hundred; `reading` is what the trimmed text reads as.
pub fn validate_fee_percent(text: &str, reading: NumberReading) -> (outcome: Result<u64, String>)
    ensures
        outcome_view(outcome) == fee_percent_outcome(text@, reading),
{
    let bits = match parse_non_negative_number("手数料率", text, reading) {
        Ok(bits) => bits,
        Err(message) => {
            return Err(message);
        },
    };
    if let NumberReading::Number { at_least_hundred: true, .. } = reading {
        return Err(String::from_str("手数料率は100未満で入力してください"));
    }
    Ok(bits)
}

/// A text that is not blank and reads as a number is accepted exactly when
/// the number is not below zero, with that number's bit pattern; a fee is
/// accepted exactly when it is, besides, below one hundred. So every fee
/// from zero up to below one hundred, zero itself included, is accepted.
pub proof fn lemma_numbers_in_range_are_accepted(
    field: Seq<char>,
    text: Seq<char>,
    bits: u64,
    below_zero: bool,
    at_least_hundred: bool,
)
    requires
        trim_view(text).len() > 0,
    ensures
        ({
            let reading = NumberReading::Number { bits, below_zero, at_least_hundred };
            &&& (non_negative_number_outcome(field, text, reading) == Ok::<u64, Seq<char>>(bits)
                <==> !below_zero)
            &&& (fee_percent_outcome(text, reading) == Ok::<u64, Seq<char>>(bits) <==> !below_zero
                && !at_least_hundred)
            &&& (fee_percent_outcome(text, reading) is Ok <==> !below_zero && !at_least_hundred)
        }),
{
}

} // verus!
