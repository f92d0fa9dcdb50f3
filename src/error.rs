//! Errors of the compiler and of the matcher, and their mathematical models.

use vstd::prelude::*;

verus! {

/// Why a template could not be compiled.
#[derive(Debug, Clone, Copy, PartialEq, Eq, Structural)]
pub enum CompileError {
    /// A `{` opened a placeholder that no `}` closes.
    UnterminatedPlaceholder,
    /// A `}` that is not part of the escape `}}`.
    UnterminatedEscape,
    /// The text after `:` in a placeholder is not exactly `x` or `b`.
    InvalidBase,
    /// The template holds no placeholder.
    MissingPlaceholder,
    /// A single-value template holds more than one placeholder.
    TooManyPlaceholders,
}

/// What std's integer parser reports when it rejects a text.
#[derive(Debug, Clone, Copy, PartialEq, Eq, Structural)]
pub enum IntError {
    /// The text is empty.
    Empty,
    /// The text holds a character that is not a digit of the radix, or a misplaced sign.
    InvalidDigit,
    /// The value is above the largest value of the type.
    PosOverflow,
    /// The value is below the smallest value of the type.
    NegOverflow,
    /// The value is zero where zero is not allowed.
    Zero,
}

/// Why matching an input against a pattern failed.
#[derive(Debug, PartialEq)]
pub enum TryParseError<T> {
    /// A literal anchor of the pattern (first field) does not begin the rest of the
    /// input (second field).
    ExpectedMismatch(Vec<u8>, Vec<u8>),
    /// A capture is not valid UTF-8 text.
    InvalidUtf8String,
    /// The codec rejected the capture.
    Inner(T),
}

/// The model of a [`TryParseError`], with byte sequences in place of vectors.
pub enum Failure<T> {
    /// The expected literal anchor and the rest of the input it did not begin.
    Mismatch(Seq<u8>, Seq<u8>),
    /// A capture that is not valid UTF-8.
    InvalidUtf8,
    /// The codec's own error.
    Inner(T),
}

impl<T> View for TryParseError<T> {
    type V = Failure<T>;

    open spec fn view(&self) -> Failure<T> {
        match self {
            TryParseError::ExpectedMismatch(expected, actual) => Failure::Mismatch(
                expected@,
                actual@,
            ),
            TryParseError::InvalidUtf8String => Failure::InvalidUtf8,
            TryParseError::Inner(e) => Failure::Inner(*e),
        }
    }
}

/// The model of the result of a match or a decode.
pub open spec fn outcome<V: View, E>(r: Result<V, TryParseError<E>>) -> Result<V::V, Failure<E>> {
    match r {
        Ok(v) => Ok(v@),
        Err(e) => Err(e@),
    }
}

impl<T> From<T> for TryParseError<T> {
    fn from(value: T) -> (r: Self)
        ensures
            r == TryParseError::<T>::Inner(value),
    {
        TryParseError::Inner(value)
    }
}

impl<T> vstd::std_specs::convert::FromSpecImpl<T> for TryParseError<T> {
    open spec fn obeys_from_spec() -> bool {
        true
    }

    open spec fn from_spec(v: T) -> Self {
        TryParseError::Inner(v)
    }
}

} // verus!
