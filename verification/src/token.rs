//! The values that pass between this crate and a serialization framework.

use vstd::prelude::*;

verus! {

/// One value as a framework's input cursor hands it over, or as it is handed
/// to a framework's output sink.
#[derive(Debug, PartialEq, Eq)]
pub enum Token {
    /// The framework's way of saying that nothing is there.
    Null,
    /// A string.
    Text(String),
    /// An unsigned integer, as wide as a framework can carry one.
    Integer(u128),
}

/// What a [`Token`] holds, as contracts speak of it.
pub enum TokenView {
    Null,
    Text(Seq<char>),
    Integer(u128),
}

impl View for Token {
    type V = TokenView;

    open spec fn view(&self) -> TokenView {
        match *self {
            Token::Null => TokenView::Null,
            Token::Text(text) => TokenView::Text(text@),
            Token::Integer(value) => TokenView::Integer(value),
        }
    }
}

} // verus!
