//! The one error type of decoding.

use vstd::prelude::*;
use vstd::string::StringExecFns;

use crate::reader::reader::Reader;
use crate::text::{
    decimal, decimal_string, dotted, dotted_string, ticked_list, ticked_list_string,
};

verus! {

/// Why a scalar is no number or no truth value.
#[derive(Debug, Clone, Copy, PartialEq, Eq, Structural)]
pub enum ScalarFailure {
    /// The scalar holds something other than digits.
    AllDigits,
    /// The number does not fit.
    Overflow,
    /// The scalar is neither `yes` nor `no`.
    InvalidBool,
    /// The number cannot be held exactly.
    PrecisionLoss,
}

/// A failure of decoding. Every variant carries in `at` the dotted path of
/// the node at which it arose.
#[derive(Debug, PartialEq, Eq)]
#[allow(inconsistent_fields)]
pub enum Error {
    InvalidType { actual: String, expected: String, at: String },
    InvalidValue { actual: String, expected: String, at: String },
    InvalidLength { actual: usize, expected: String, at: String },
    UnknownVariant { actual: String, expected: String, at: String },
    UnknownField { field: String, expected: String, at: String },
    DuplicateField { field: String, at: String },
    MissingField { field: String, at: String },
    UnexpectedOperator { op: String, at: String },
    UnexpectedRemainder { remainder: String, at: String },
    DeserializeError { error: String, at: String },
    ScalarError { error: ScalarFailure, at: String },
    Custom { message: String, at: String },
}

/// The mathematical value of an [`Error`].
#[allow(inconsistent_fields)]
pub enum ErrorView {
    InvalidType { actual: Seq<char>, expected: Seq<char>, at: Seq<char> },
    InvalidValue { actual: Seq<char>, expected: Seq<char>, at: Seq<char> },
    InvalidLength { actual: usize, expected: Seq<char>, at: Seq<char> },
    UnknownVariant { actual: Seq<char>, expected: Seq<char>, at: Seq<char> },
    UnknownField { field: Seq<char>, expected: Seq<char>, at: Seq<char> },
    DuplicateField { field: Seq<char>, at: Seq<char> },
    MissingField { field: Seq<char>, at: Seq<char> },
    UnexpectedOperator { op: Seq<char>, at: Seq<char> },
    UnexpectedRemainder { remainder: Seq<char>, at: Seq<char> },
    DeserializeError { error: Seq<char>, at: Seq<char> },
    ScalarError { error: ScalarFailure, at: Seq<char> },
    Custom { message: Seq<char>, at: Seq<char> },
}

impl DeepView for Error {
    type V = ErrorView;

    open spec fn deep_view(&self) -> ErrorView {
        match self {
            Error::InvalidType { actual, expected, at } => ErrorView::InvalidType {
                actual: actual@,
                expected: expected@,
                at: at@,
            },
            Error::InvalidValue { actual, expected, at } => ErrorView::InvalidValue {
                actual: actual@,
                expected: expected@,
                at: at@,
            },
            Error::InvalidLength { actual, expected, at } => ErrorView::InvalidLength {
                actual: *actual,
                expected: expected@,
                at: at@,
            },
            Error::UnknownVariant { actual, expected, at } => ErrorView::UnknownVariant {
                actual: actual@,
                expected: expected@,
                at: at@,
            },
            Error::UnknownField { field, expected, at } => ErrorView::UnknownField {
                field: field@,
                expected: expected@,
                at: at@,
            },
            Error::DuplicateField { field, at } => ErrorView::DuplicateField {
                field: field@,
                at: at@,
            },
            Error::MissingField { field, at } => ErrorView::MissingField { field: field@, at: at@ },
            Error::UnexpectedOperator { op, at } => ErrorView::UnexpectedOperator {
                op: op@,
                at: at@,
            },
            Error::UnexpectedRemainder { remainder, at } => ErrorView::UnexpectedRemainder {
                remainder: remainder@,
                at: at@,
            },
            Error::DeserializeError { error, at } => ErrorView::DeserializeError {
                error: error@,
                at: at@,
            },
            Error::ScalarError { error, at } => ErrorView::ScalarError { error: *error, at: at@ },
            Error::Custom { message, at } => ErrorView::Custom { message: message@, at: at@ },
        }
    }
}

/// The value of a decoding result: that of what was decoded, or that of the
/// error.
pub open spec fn outcome<T: DeepView>(r: Result<T, Error>) -> Result<T::V, ErrorView> {
    match r {
        Ok(value) => Ok(value.deep_view()),
        Err(error) => Err(error.deep_view()),
    }
}

impl ErrorView {
    pub open spec fn invalid_type(
        path: Seq<Seq<char>>,
        actual: Seq<char>,
        expected: Seq<char>,
    ) -> ErrorView {
        ErrorView::InvalidType { actual, expected, at: dotted(path) }
    }

    pub open spec fn invalid_value(
        path: Seq<Seq<char>>,
        actual: Seq<char>,
        expected: Seq<char>,
    ) -> ErrorView {
        ErrorView::InvalidValue { actual, expected, at: dotted(path) }
    }

    pub open spec fn invalid_length(
        path: Seq<Seq<char>>,
        actual: usize,
        expected: Seq<char>,
    ) -> ErrorView {
        ErrorView::InvalidLength { actual, expected, at: dotted(path) }
    }

    pub open spec fn unknown_variant(
        path: Seq<Seq<char>>,
        actual: Seq<char>,
        expected: Seq<Seq<char>>,
    ) -> ErrorView {
        ErrorView::UnknownVariant { actual, expected: ticked_list(expected), at: dotted(path) }
    }

    pub open spec fn unknown_field(
        path: Seq<Seq<char>>,
        field: Seq<char>,
        expected: Seq<Seq<char>>,
    ) -> ErrorView {
        ErrorView::UnknownField { field, expected: ticked_list(expected), at: dotted(path) }
    }

    pub open spec fn duplicate_field(path: Seq<Seq<char>>, field: Seq<char>) -> ErrorView {
        ErrorView::DuplicateField { field, at: dotted(path) }
    }

    pub open spec fn missing_field(path: Seq<Seq<char>>, field: Seq<char>) -> ErrorView {
        ErrorView::MissingField { field, at: dotted(path) }
    }

    pub open spec fn unexpected_operator(path: Seq<Seq<char>>, op: Seq<char>) -> ErrorView {
        ErrorView::UnexpectedOperator { op, at: dotted(path) }
    }

    pub open spec fn unexpected_remainder(path: Seq<Seq<char>>, remainder: Seq<char>) -> ErrorView {
        ErrorView::UnexpectedRemainder { remainder, at: dotted(path) }
    }

    pub open spec fn deserialize_error(path: Seq<Seq<char>>, error: Seq<char>) -> ErrorView {
        ErrorView::DeserializeError { error, at: dotted(path) }
    }

    pub open spec fn scalar_error(path: Seq<Seq<char>>, error: ScalarFailure) -> ErrorView {
        ErrorView::ScalarError { error, at: dotted(path) }
    }

    pub open spec fn custom(path: Seq<Seq<char>>, message: Seq<char>) -> ErrorView {
        ErrorView::Custom { message, at: dotted(path) }
    }
}

impl Error {
    /// A node of the wrong kind: `actual` was found where `expected` belongs.
    pub fn invalid_type(reader: &Reader, actual: &str, expected: &str) -> (r: Error)
        ensures
            r.deep_view() == ErrorView::invalid_type(reader.path.deep_view(), actual@, expected@),
    {
        Error::InvalidType {
            actual: String::from_str(actual),
            expected: String::from_str(expected),
            at: dotted_string(&reader.path),
        }
    }

    /// A scalar outside the values that are accepted.
    pub fn invalid_value(reader: &Reader, actual: &str, expected: &str) -> (r: Error)
        ensures
            r.deep_view() == ErrorView::invalid_value(reader.path.deep_view(), actual@, expected@),
    {
        Error::InvalidValue {
            actual: String::from_str(actual),
            expected: String::from_str(expected),
            at: dotted_string(&reader.path),
        }
    }

    /// An array with the wrong number of values.
    pub fn invalid_length(reader: &Reader, actual: usize, expected: &str) -> (r: Error)
        ensures
            r.deep_view() == ErrorView::invalid_length(reader.path.deep_view(), actual, expected@),
    {
        Error::InvalidLength {
            actual,
            expected: String::from_str(expected),
            at: dotted_string(&reader.path),
        }
    }

    /// A name that is none of an enumeration's variants, with the names that
    /// are.
    pub fn unknown_variant(reader: &Reader, actual: &str, expected: &Vec<&'static str>) -> (r:
        Error)
        ensures
            r.deep_view() == ErrorView::unknown_variant(
                reader.path.deep_view(),
                actual@,
                expected.deep_view(),
            ),
    {
        Error::UnknownVariant {
            actual: String::from_str(actual),
            expected: ticked_list_string(expected),
            at: dotted_string(&reader.path),
        }
    }

    /// A key that is none of an object's fields, with the keys that are.
    pub fn unknown_field(reader: &Reader, field: &str, expected: &Vec<&'static str>) -> (r: Error)
        ensures
            r.deep_view() == ErrorView::unknown_field(
                reader.path.deep_view(),
                field@,
                expected.deep_view(),
            ),
    {
        Error::UnknownField {
            field: String::from_str(field),
            expected: ticked_list_string(expected),
            at: dotted_string(&reader.path),
        }
    }

    /// A field that was given twice.
    pub fn duplicate_field(reader: &Reader, field: &str) -> (r: Error)
        ensures
            r.deep_view() == ErrorView::duplicate_field(reader.path.deep_view(), field@),
    {
        Error::DuplicateField { field: String::from_str(field), at: dotted_string(&reader.path) }
    }

    /// A required field that was not given.
    pub fn missing_field(reader: &Reader, field: &str) -> (r: Error)
        ensures
            r.deep_view() == ErrorView::missing_field(reader.path.deep_view(), field@),
    {
        Error::MissingField { field: String::from_str(field), at: dotted_string(&reader.path) }
    }

    /// A field written with an operator other than `=`.
    pub fn unexpected_operator(reader: &Reader, op: &str) -> (r: Error)
        ensures
            r.deep_view() == ErrorView::unexpected_operator(reader.path.deep_view(), op@),
    {
        Error::UnexpectedOperator { op: String::from_str(op), at: dotted_string(&reader.path) }
    }

    /// Values without a key after the fields of an object.
    pub fn unexpected_remainder(reader: &Reader, remainder: &str) -> (r: Error)
        ensures
            r.deep_view() == ErrorView::unexpected_remainder(reader.path.deep_view(), remainder@),
    {
        Error::UnexpectedRemainder {
            remainder: String::from_str(remainder),
            at: dotted_string(&reader.path),
        }
    }

    /// Bytes that are no document.
    pub fn deserialize_error(reader: &Reader, error: &str) -> (r: Error)
        ensures
            r.deep_view() == ErrorView::deserialize_error(reader.path.deep_view(), error@),
    {
        Error::DeserializeError { error: String::from_str(error), at: dotted_string(&reader.path) }
    }

    /// A scalar that is no number or no truth value.
    pub fn scalar_error(reader: &Reader, error: ScalarFailure) -> (r: Error)
        ensures
            r.deep_view() == ErrorView::scalar_error(reader.path.deep_view(), error),
    {
        Error::ScalarError { error, at: dotted_string(&reader.path) }
    }

    /// A rule that spans several fields was broken.
    pub fn custom(reader: &Reader, message: String) -> (r: Error)
        ensures
            r.deep_view() == ErrorView::custom(reader.path.deep_view(), message@),
    {
        Error::Custom { message, at: dotted_string(&reader.path) }
    }
}

impl ScalarFailure {
    /// The failure in words.
    pub open spec fn text(self) -> Seq<char> {
        match self {
            ScalarFailure::AllDigits => "did not contain all digits"@,
            ScalarFailure::Overflow => "caused an overflow"@,
            ScalarFailure::InvalidBool => "is not a valid bool"@,
            ScalarFailure::PrecisionLoss => "precision loss"@,
        }
    }

    /// The failure in words.
    pub fn to_str(self) -> (r: &'static str)
        ensures
            r@ == self.text(),
    {
        match self {
            ScalarFailure::AllDigits => "did not contain all digits",
            ScalarFailure::Overflow => "caused an overflow",
            ScalarFailure::InvalidBool => "is not a valid bool",
            ScalarFailure::PrecisionLoss => "precision loss",
        }
    }
}

impl ErrorView {
    /// The error as a message for a reader: what was wrong, and in
    /// parentheses the path at which it was found.
    pub open spec fn message(self) -> Seq<char> {
        match self {
            ErrorView::InvalidType { actual, expected, at } => {
                "invalid type "@ + actual + ", expected "@ + expected + " (at "@ + at + ")"@
            },
            ErrorView::InvalidValue { actual, expected, at } => {
                "invalid value "@ + actual + ", expected "@ + expected + " (at "@ + at + ")"@
            },
            ErrorView::InvalidLength { actual, expected, at } => {
                "invalid length "@ + decimal(actual as nat) + ", expected "@ + expected + " (at "@ + at + ")"@
            },
            ErrorView::UnknownVariant { actual, expected, at } => {
                "unknown variant "@ + actual + ", expected one of "@ + expected + " (at "@ + at + ")"@
            },
            ErrorView::UnknownField { field, expected, at } => {
                "unknown field `"@ + field + "`, expected one of "@ + expected + " (at "@ + at + ")"@
            },
            ErrorView::DuplicateField { field, at } => {
                "duplicate field `"@ + field + "`"@ + " (at "@ + at + ")"@
            },
            ErrorView::MissingField { field, at } => {
                "missing field `"@ + field + "`"@ + " (at "@ + at + ")"@
            },
            ErrorView::UnexpectedOperator { op, at } => {
                "unexpected operator `"@ + op + "`"@ + " (at "@ + at + ")"@
            },
            ErrorView::UnexpectedRemainder { remainder, at } => {
                "unexpected remainder `"@ + remainder + "`"@ + " (at "@ + at + ")"@
            },
            ErrorView::DeserializeError { error, at } => {
                "failed to deserialize: "@ + error + " (at "@ + at + ")"@
            },
            ErrorView::ScalarError { error, at } => {
                "failed to parse: "@ + error.text() + " (at "@ + at + ")"@
            },
            ErrorView::Custom { message, at } => {
                message + " (at "@ + at + ")"@
            },
        }
    }
}

impl Error {
    /// The error as a message for a reader: what was wrong, and in
    /// parentheses the path at which it was found.
    pub fn message(&self) -> (r: String)
        ensures
            r@ == self.deep_view().message(),
    {
        let mut out = String::new();
        let at: &String = match self {
            Error::InvalidType { actual, expected, at } => {
                out.append("invalid type ");
                out.append(actual.as_str());
                out.append(", expected ");
                out.append(expected.as_str());
                at
            },
            Error::InvalidValue { actual, expected, at } => {
                out.append("invalid value ");
                out.append(actual.as_str());
                out.append(", expected ");
                out.append(expected.as_str());
                at
            },
            Error::InvalidLength { actual, expected, at } => {
                out.append("invalid length ");
                out.append(decimal_string(*actual as u64).as_str());
                out.append(", expected ");
                out.append(expected.as_str());
                at
            },
            Error::UnknownVariant { actual, expected, at } => {
                out.append("unknown variant ");
                out.append(actual.as_str());
                out.append(", expected one of ");
                out.append(expected.as_str());
                at
            },
            Error::UnknownField { field, expected, at } => {
                out.append("unknown field `");
                out.append(field.as_str());
                out.append("`, expected one of ");
                out.append(expected.as_str());
                at
            },
            Error::DuplicateField { field, at } => {
                out.append("duplicate field `");
                out.append(field.as_str());
                out.append("`");
                at
            },
            Error::MissingField { field, at } => {
                out.append("missing field `");
                out.append(field.as_str());
                out.append("`");
                at
            },
            Error::UnexpectedOperator { op, at } => {
                out.append("unexpected operator `");
                out.append(op.as_str());
                out.append("`");
                at
            },
            Error::UnexpectedRemainder { remainder, at } => {
                out.append("unexpected remainder `");
                out.append(remainder.as_str());
                out.append("`");
                at
            },
            Error::DeserializeError { error, at } => {
                out.append("failed to deserialize: ");
                out.append(error.as_str());
                at
            },
            Error::ScalarError { error, at } => {
                out.append("failed to parse: ");
                out.append(error.to_str());
                at
            },
            Error::Custom { message, at } => {
                out.append(message.as_str());
                at
            },
        };
        out.append(" (at ");
        out.append(at.as_str());
        out.append(")");
        assert(out@ =~= self.deep_view().message());
        out
    }
}

} // verus!
