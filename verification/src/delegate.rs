//! The two calls into `byte_unit`, which owns the grammar of sizes and the
//! choice of the unit that a byte count is written in.
//!
//! Nothing in this file is proved: the contracts state what `byte_unit` does,
//! and the rest of the crate is verified against them. This crate builds
//! `byte_unit` without its `u128` feature: a `Byte` is then a `u64`, and a size
//! beyond `u64::MAX` is refused where it is read.

use byte_unit::Byte;
use std::str::FromStr;
use vstd::prelude::*;

verus! {

/// What `<Byte as FromStr>::from_str`, that is `Byte::parse_str` with
/// `ignore_case` off, returns for `text`: the bytes of the `Byte`, or what the
/// `ParseError` displays.
pub uninterp spec fn byte_from_str(text: Seq<char>) -> Result<u64, Seq<char>>;

/// What the alternate form (`{:#}`) of `Byte`'s `Display` writes for
/// `Byte::from_u64(size)`.
pub uninterp spec fn byte_to_string(size: u64) -> Seq<char>;

/// Calls `<Byte as FromStr>::from_str` on `text`. The contract claims that the
/// result is a function of the characters of `text` alone: `Ok` carries the
/// bytes of the `Byte` that was returned, `Err` the text that the returned
/// `ParseError` displays.
#[verifier::external_body]
pub(crate) fn read_size(text: &str) -> (read: Result<u64, String>)
    ensures
        match read {
            Ok(size) => byte_from_str(text@) == Ok::<u64, Seq<char>>(size),
            Err(description) => byte_from_str(text@) == Err::<u64, Seq<char>>(description@),
        },
{
    match Byte::from_str(text) {
        Ok(byte) => Ok(byte.as_u64()),
        Err(error) => Err(error.to_string()),
    }
}

/// Formats `Byte::from_u64(size)` with `{:#}`. The contract claims that the
/// text is a function of `size` alone, and that `Byte::from_str` reads that
/// text back as `size` bytes: `{:#}` writes the value and the unit that
/// `Byte::get_recoverable_unit` found, which its documentation describes as
/// those "that can be used to recover back to this `Byte` precisely".
#[verifier::external_body]
pub(crate) fn write_size(size: u64) -> (text: String)
    ensures
        text@ == byte_to_string(size),
        (byte_from_str(text@) == Ok::<u64, Seq<char>>(size)),
{
    format!("{:#}", Byte::from_u64(size))
}

} // verus!
