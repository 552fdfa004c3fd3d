//! Byte counts written as human-readable sizes.
//!
//! A `u64` field, or an `Option<u64>` one, that counts bytes is turned into the
//! token that a serialization framework writes for it, and read back from the
//! token that the framework found in its input: a size such as `"1.5 GiB"` where
//! the format is one for people, the bare number where it is not.
//! The grammar of sizes and the choice of the unit are those of the `byte_unit`
//! crate.

pub mod byte;
pub mod delegate;
pub mod error;
pub mod token;

pub use crate::byte::{deserialize, serialize};
pub use crate::error::{DeserializationError, DeserializationErrorView};
pub use crate::token::{Token, TokenView};
