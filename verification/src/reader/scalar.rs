//! What `jomini` makes of a scalar's bytes: text, numbers and truth values.

use vstd::prelude::*;

use crate::reader::error::ScalarFailure;

verus! {

/// The text that `jomini::Utf8Encoding::decode` makes of a scalar's bytes.
pub uninterp spec fn utf8_text(bytes: Seq<u8>) -> Seq<char>;

/// The text that `jomini::Scalar` prints of its bytes.
pub uninterp spec fn display_text(bytes: Seq<u8>) -> Seq<char>;

/// What `jomini::Scalar::to_u64` makes of a scalar's bytes.
pub uninterp spec fn unsigned_of(bytes: Seq<u8>) -> Result<u64, ScalarFailure>;

/// What `jomini::Scalar::to_i64` makes of a scalar's bytes.
pub uninterp spec fn signed_of(bytes: Seq<u8>) -> Result<i64, ScalarFailure>;

/// What `jomini::Scalar::to_f64` makes of a scalar's bytes, the number by its
/// IEEE 754 bit pattern.
pub uninterp spec fn float_bits_of(bytes: Seq<u8>) -> Result<u64, ScalarFailure>;

/// The truth value that a scalar spells: `yes` or `no`.
pub open spec fn truth_of(bytes: Seq<u8>) -> Result<bool, ScalarFailure> {
    if bytes == seq![0x79u8, 0x65u8, 0x73u8] {
        Ok(true)
    } else if bytes == seq![0x6eu8, 0x6fu8] {
        Ok(false)
    } else {
        Err(ScalarFailure::InvalidBool)
    }
}

/// Calls `jomini::Utf8Encoding::decode`; the result is the text that
/// [`utf8_text`] names.
#[verifier::external_body]
pub(crate) fn decode_utf8(bytes: &[u8]) -> (r: String)
    ensures
        r@ == utf8_text(bytes@),
{
    jomini::Utf8Encoding::decode(bytes).into_owned()
}

/// Prints a `jomini::Scalar` of these bytes; the result is the text that
/// [`display_text`] names.
#[verifier::external_body]
pub(crate) fn scalar_text(bytes: &[u8]) -> (r: String)
    ensures
        r@ == display_text(bytes@),
{
    jomini::Scalar::new(bytes).to_string()
}

/// Calls `jomini::Scalar::to_bool`, which accepts `yes` as true and `no` as
/// false and reports any other scalar as no truth value.
#[verifier::external_body]
pub(crate) fn scalar_bool(bytes: &[u8]) -> (r: Result<bool, ScalarFailure>)
    ensures
        r == truth_of(bytes@),
{
    match jomini::Scalar::new(bytes).to_bool() {
        Ok(value) => Ok(value),
        Err(jomini::ScalarError::AllDigits) => Err(ScalarFailure::AllDigits),
        Err(jomini::ScalarError::Overflow) => Err(ScalarFailure::Overflow),
        Err(jomini::ScalarError::InvalidBool) => Err(ScalarFailure::InvalidBool),
        Err(jomini::ScalarError::PrecisionLoss(_)) => Err(ScalarFailure::PrecisionLoss),
    }
}

/// Calls `jomini::Scalar::to_u64`; the result is what [`unsigned_of`] names.
#[verifier::external_body]
pub(crate) fn scalar_u64(bytes: &[u8]) -> (r: Result<u64, ScalarFailure>)
    ensures
        r == unsigned_of(bytes@),
{
    match jomini::Scalar::new(bytes).to_u64() {
        Ok(value) => Ok(value),
        Err(jomini::ScalarError::AllDigits) => Err(ScalarFailure::AllDigits),
        Err(jomini::ScalarError::Overflow) => Err(ScalarFailure::Overflow),
        Err(jomini::ScalarError::InvalidBool) => Err(ScalarFailure::InvalidBool),
        Err(jomini::ScalarError::PrecisionLoss(_)) => Err(ScalarFailure::PrecisionLoss),
    }
}

/// Calls `jomini::Scalar::to_i64`; the result is what [`signed_of`] names.
#[verifier::external_body]
pub(crate) fn scalar_i64(bytes: &[u8]) -> (r: Result<i64, ScalarFailure>)
    ensures
        r == signed_of(bytes@),
{
    match jomini::Scalar::new(bytes).to_i64() {
        Ok(value) => Ok(value),
        Err(jomini::ScalarError::AllDigits) => Err(ScalarFailure::AllDigits),
        Err(jomini::ScalarError::Overflow) => Err(ScalarFailure::Overflow),
        Err(jomini::ScalarError::InvalidBool) => Err(ScalarFailure::InvalidBool),
        Err(jomini::ScalarError::PrecisionLoss(_)) => Err(ScalarFailure::PrecisionLoss),
    }
}

/// Calls `jomini::Scalar::to_f64` and takes the bit pattern of the number;
/// the result is what [`float_bits_of`] names.
#[verifier::external_body]
pub(crate) fn scalar_float_bits(bytes: &[u8]) -> (r: Result<u64, ScalarFailure>)
    ensures
        r == float_bits_of(bytes@),
{
    match jomini::Scalar::new(bytes).to_f64() {
        Ok(value) => Ok(value.to_bits()),
        Err(jomini::ScalarError::AllDigits) => Err(ScalarFailure::AllDigits),
        Err(jomini::ScalarError::Overflow) => Err(ScalarFailure::Overflow),
        Err(jomini::ScalarError::InvalidBool) => Err(ScalarFailure::InvalidBool),
        Err(jomini::ScalarError::PrecisionLoss(_)) => Err(ScalarFailure::PrecisionLoss),
    }
}

} // verus!
