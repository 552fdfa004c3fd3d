//! Why a token was not read as a byte count.

use vstd::prelude::*;

verus! {

/// The failure of a read: the token is no size, or its size is no `u64`.
#[derive(Debug, PartialEq, Eq)]
pub enum DeserializationError {
    /// The text is not a size that `byte_unit` reads as a `u64` of bytes.
    /// Holds the description that `byte_unit` gave of its refusal.
    Malformed(String),
    /// The integer is larger than `u64::MAX`. Holds the integer.
    OutOfRange(u128),
    /// Nothing was there where a byte count is required.
    Missing,
}

/// What a [`DeserializationError`] holds, as contracts speak of it.
pub enum DeserializationErrorView {
    Malformed(Seq<char>),
    OutOfRange(u128),
    Missing,
}

impl View for DeserializationError {
    type V = DeserializationErrorView;

    open spec fn view(&self) -> DeserializationErrorView {
        match *self {
            DeserializationError::Malformed(description) => DeserializationErrorView::Malformed(
                description@,
            ),
            DeserializationError::OutOfRange(value) => DeserializationErrorView::OutOfRange(value),
            DeserializationError::Missing => DeserializationErrorView::Missing,
        }
    }
}

/// What a read comes to, as contracts speak of it: the value, or the view of
/// the error.
pub type Reading<T> = Result<T, DeserializationErrorView>;

/// The reading that refuses a text with the `description` of what is wrong
/// with it.
pub open spec fn malformed<T>(description: Seq<char>) -> Reading<T> {
    Err(DeserializationErrorView::Malformed(description))
}

/// The result of a read with its error taken by its view.
pub open spec fn outcome<T>(result: Result<T, DeserializationError>) -> Reading<T> {
    match result {
        Ok(value) => Ok(value),
        Err(error) => Err(error@),
    }
}

} // verus!
