use byte_unit::Byte;
use byte_unit_serde::byte::deserialize;
use byte_unit_serde::{DeserializationError, Token};
use serde::de::value::{Error, StrDeserializer, U128Deserializer};
use serde::Deserialize;

#[test]
fn a_text_is_read_as_byte_units_visitor_reads_it() {
    let texts = [
        "1024kB", "1kiB", "1", "0", "1.5 GiB", "12.345678 MB", "1 kb", "8 bits", "16 EiB", "abc",
        "-5kB", "", " ", "1.", ".5", "1 K", "1 Ki", "1 KiBs", "1 bi", "5 XB", "１",
        "18446744073709551615", "18446744073709551616", "99999999999999999999999999999999",
    ];
    for text in texts {
        let theirs = Byte::deserialize(StrDeserializer::<Error>::new(text));
        let ours: Result<u64, DeserializationError> = deserialize(Token::Text(text.to_string()));
        match (ours, theirs) {
            (Ok(size), Ok(byte)) => assert_eq!(size, byte.as_u64(), "{:?}", text),
            (Err(DeserializationError::Malformed(description)), Err(error)) => {
                assert_eq!(description, error.to_string(), "{:?}", text)
            }
            (ours, theirs) => panic!("{:?}: {:?} here, {:?} there", text, ours, theirs),
        }
    }
}

#[test]
fn an_integer_is_read_as_byte_units_visitor_reads_it() {
    let integers: [u128; 7] = [
        0,
        1,
        1_024_000,
        u64::MAX as u128 - 1,
        u64::MAX as u128,
        u64::MAX as u128 + 1,
        u128::MAX,
    ];
    for integer in integers {
        let theirs = Byte::deserialize(U128Deserializer::<Error>::new(integer));
        let ours: Result<u64, DeserializationError> = deserialize(Token::Integer(integer));
        match (ours, theirs) {
            (Ok(size), Ok(byte)) => assert_eq!(size, byte.as_u64()),
            (Err(DeserializationError::OutOfRange(value)), Err(_)) => assert_eq!(value, integer),
            (ours, theirs) => panic!("{}: {:?} here, {:?} there", integer, ours, theirs),
        }
    }
}
