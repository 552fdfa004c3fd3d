//! Reading a byte count from a token and writing one as a token.
//!
//! [`deserialize`] and [`serialize`] are the two entry points. Both serve a
//! plain `u64` and an `Option<u64>` through [`ByteCount`].

use crate::delegate::{byte_from_str, byte_to_string, read_size, write_size};
use crate::error::{malformed, outcome, DeserializationError, DeserializationErrorView, Reading};
use crate::token::{Token, TokenView};
use vstd::prelude::*;

verus! {

/// What a text reads as, given what `byte_unit` made of it: the byte count, or
/// a refusal that carries the description `byte_unit` gave.
pub open spec fn settled(read: Result<u64, Seq<char>>) -> Reading<u64> {
    match read {
        Ok(size) => Ok(size),
        Err(description) => malformed(description),
    }
}

/// What `text` reads as.
pub open spec fn parsed(text: Seq<char>) -> Reading<u64> {
    settled(byte_from_str(text))
}

/// What a token reads as where a byte count is required: a text as
/// [`parsed`], an integer as itself where it is a `u64`.
pub open spec fn token_size(token: TokenView) -> Reading<u64> {
    match token {
        TokenView::Null => Err(DeserializationErrorView::Missing),
        TokenView::Text(text) => parsed(text),
        TokenView::Integer(value) => if value <= u64::MAX {
            Ok(value as u64)
        } else {
            Err(DeserializationErrorView::OutOfRange(value))
        },
    }
}

/// The form in which a byte count travels.
#[derive(Debug, Clone, Copy, PartialEq, Eq)]
pub enum Form {
    /// As a size, such as `"1.5 GiB"`.
    Text,
    /// As the bare number of bytes.
    Integer,
}

impl Form {
    /// The form that goes with a format: a text where the format is for
    /// people, the number otherwise.
    pub open spec fn of_format(human_readable: bool) -> Form {
        if human_readable {
            Form::Text
        } else {
            Form::Integer
        }
    }

    /// The form to write a byte count in, and to ask a cursor for.
    pub fn of(human_readable: bool) -> (form: Form)
        ensures
            form == Form::of_format(human_readable),
    {
        if human_readable {
            Form::Text
        } else {
            Form::Integer
        }
    }
}

/// The token that `size` is written as: its text where the format is for
/// people, the bare number otherwise.
pub open spec fn size_token(size: u64, human_readable: bool) -> TokenView {
    match Form::of_format(human_readable) {
        Form::Text => TokenView::Text(byte_to_string(size)),
        Form::Integer => TokenView::Integer(size as u128),
    }
}

/// Turns what `byte_unit` made of a text into the result of reading that
/// text: the byte count as it is, a description as [`DeserializationError::Malformed`].
pub fn settle(read: Result<u64, String>) -> (result: Result<u64, DeserializationError>)
    ensures
        match read {
            Ok(size) => outcome(result) == settled(Ok(size)),
            Err(description) => outcome(result) == settled(Err(description@)),
        },
{
    match read {
        Ok(size) => Ok(size),
        Err(description) => Err(DeserializationError::Malformed(description)),
    }
}

/// Reads `text` as a size: digits, with a fraction or without, then a unit or
/// none, as `byte_unit` reads them. Fails exactly where `byte_unit` refuses
/// the text, and hands its description on.
pub fn parse_size(text: &str) -> (result: Result<u64, DeserializationError>)
    ensures
        outcome(result) == parsed(text@),
{
    settle(read_size(text))
}

/// Writes `size` bytes as a text: a number, a space and the unit that
/// `byte_unit` chose. The text reads back as `size`.
pub fn format_size(size: u64) -> (text: String)
    ensures
        text@ == byte_to_string(size),
        parsed(text@) == Reading::Ok(size),
{
    write_size(size)
}

/// A token on its way to becoming a byte count.
#[derive(Debug)]
pub struct Deser(Token);

impl View for Deser {
    type V = TokenView;

    closed spec fn view(&self) -> TokenView {
        self.0@
    }
}

/// A value on its way to becoming a token.
#[derive(Debug)]
pub struct Ser<T>(T);

impl<T> Ser<T> {
    /// The value inside.
    pub closed spec fn value(self) -> T {
        self.0
    }
}

impl<T> From<T> for Ser<T> {
    fn from(value: T) -> (ser: Self)
        ensures
            ser.value() == value,
    {
        Self(value)
    }
}

impl<T> vstd::std_specs::convert::FromSpecImpl<T> for Ser<T> {
    open spec fn obeys_from_spec() -> bool {
        true
    }

    closed spec fn from_spec(value: T) -> Self {
        Ser(value)
    }
}

/// A shape in which a field holds a byte count: the count itself, or one that
/// may be absent.
pub trait ByteCount: Sized {
    /// What a token reads as.
    spec fn from_token(token: TokenView) -> Reading<Self>;

    /// The token that a value is written as.
    spec fn to_token(self, human_readable: bool) -> TokenView;

    /// Whether the shape has a value for a field that is absent.
    fn optional() -> (yes: bool)
        ensures
            yes == (Self::from_token(TokenView::Null) is Ok),
    ;

    /// Reads the token in `der`.
    fn decode(der: Deser) -> (result: Result<Self, DeserializationError>)
        ensures
            outcome(result) == Self::from_token(der@),
    ;

    /// Writes the value in `ser`, as a text where `human_readable` is set. The
    /// token reads back as that value.
    fn encode(ser: &Ser<&Self>, human_readable: bool) -> (token: Token)
        ensures
            token@ == ser.value().to_token(human_readable),
            Self::from_token(token@) == Reading::Ok(*ser.value()),
    ;
}

impl ByteCount for u64 {
    open spec fn from_token(token: TokenView) -> Reading<u64> {
        token_size(token)
    }

    open spec fn to_token(self, human_readable: bool) -> TokenView {
        size_token(self, human_readable)
    }

    fn optional() -> (yes: bool) {
        false
    }

    fn decode(der: Deser) -> (result: Result<u64, DeserializationError>) {
        match der.0 {
            Token::Null => Err(DeserializationError::Missing),
            Token::Text(text) => parse_size(text.as_str()),
            Token::Integer(value) => if value <= u64::MAX as u128 {
                Ok(value as u64)
            } else {
                Err(DeserializationError::OutOfRange(value))
            },
        }
    }

    fn encode(ser: &Ser<&u64>, human_readable: bool) -> (token: Token) {
        let size: u64 = *ser.0;
        match Form::of(human_readable) {
            Form::Text => Token::Text(format_size(size)),
            Form::Integer => Token::Integer(size as u128),
        }
    }
}

impl ByteCount for Option<u64> {
    open spec fn from_token(token: TokenView) -> Reading<Option<u64>> {
        match token {
            TokenView::Null => Ok(None),
            _ => match token_size(token) {
                Ok(size) => Ok(Some(size)),
                Err(error) => Err(error),
            },
        }
    }

    open spec fn to_token(self, human_readable: bool) -> TokenView {
        match self {
            None => TokenView::Null,
            Some(size) => size_token(size, human_readable),
        }
    }

    fn optional() -> (yes: bool) {
        true
    }

    fn decode(der: Deser) -> (result: Result<Option<u64>, DeserializationError>) {
        match der.0 {
            Token::Null => Ok(None),
            token => match u64::decode(Deser(token)) {
                Ok(size) => Ok(Some(size)),
                Err(error) => Err(error),
            },
        }
    }

    fn encode(ser: &Ser<&Option<u64>>, human_readable: bool) -> (token: Token) {
        match ser.0 {
            None => Token::Null,
            Some(size) => u64::encode(&Ser::from(size), human_readable),
        }
    }
}

impl<'a, T: ByteCount> Ser<&'a T> {
    /// Writes the value as a token, as a text where `human_readable` is set.
    /// The token reads back as the value.
    pub fn serialize(&self, human_readable: bool) -> (token: Token)
        ensures
            token@ == self.value().to_token(human_readable),
            T::from_token(token@) == Reading::Ok(*self.value()),
    {
        T::encode(self, human_readable)
    }
}

/// Reads a byte count, or one that may be absent, from the token that a
/// framework found in its input.
///
/// A text is read as a size, and the read fails where `byte_unit` refuses the
/// text. An integer is taken as it is, and the read fails where it is larger
/// than `u64::MAX`. Where nothing is there, an `Option<u64>` is `None` and a
/// `u64` fails.
pub fn deserialize<T: ByteCount>(token: Token) -> (result: Result<T, DeserializationError>)
    ensures
        outcome(result) == T::from_token(token@),
{
    T::decode(Deser(token))
}

/// Writes a byte count, or one that may be absent, as the token to hand to a
/// framework's sink.
///
/// A byte count becomes its text where the sink's format is `human_readable`,
/// the bare number where it is not; `None` becomes [`Token::Null`]. Read
/// again, the token gives the value back.
pub fn serialize<T: ByteCount>(val: &T, human_readable: bool) -> (token: Token)
    ensures
        token@ == val.to_token(human_readable),
        T::from_token(token@) == Reading::Ok(*val),
{
    Ser::from(val).serialize(human_readable)
}

/// Absence is kept apart from every byte count, zero included. `None` alone
/// is written as [`Token::Null`], in every format; a missing token reads as
/// `None`, not as an error; and what a byte count is written as never reads
/// as `None`.
pub proof fn lemma_absence_is_kept(value: Option<u64>, human_readable: bool)
    ensures
        value.to_token(human_readable) == TokenView::Null <==> value is None,
        <Option<u64> as ByteCount>::from_token(TokenView::Null) == Reading::Ok(None::<u64>),
        value is Some ==> <Option<u64> as ByteCount>::from_token(value.to_token(human_readable))
            != Reading::Ok(None::<u64>),
{
}

/// A text that `byte_unit` refuses is refused in both shapes, with the
/// description that `byte_unit` gave and with no value; a text that it reads
/// is read in both shapes as the byte count that it gave.
pub proof fn lemma_text_is_read_as_byte_unit_reads_it(text: Seq<char>)
    ensures
        match byte_from_str(text) {
            Ok(size) => {
                &&& <u64 as ByteCount>::from_token(TokenView::Text(text)) == Reading::Ok(size)
                &&& <Option<u64> as ByteCount>::from_token(TokenView::Text(text)) == Reading::Ok(
                    Some(size),
                )
            },
            Err(description) => {
                &&& <u64 as ByteCount>::from_token(TokenView::Text(text)) == malformed::<u64>(
                    description,
                )
                &&& <Option<u64> as ByteCount>::from_token(TokenView::Text(text)) == malformed::<
                    Option<u64>,
                >(description)
            },
        },
{
}

} // verus!
