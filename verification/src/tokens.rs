//! The token alphabet the code generators read their input in.

use vstd::prelude::*;

verus! {

/// One token of generator input, reduced to what the generators decide on:
/// identifiers, commas, string literals, integer literals, and anything
/// else. The front end that splits host source text into these tokens hands
/// them over as plain values.
#[derive(Debug)]
pub enum MacroToken {
    /// An identifier, carrying its name.
    Ident(String),
    /// A comma separating list items.
    Comma,
    /// A string literal, carrying its text.
    Text(String),
    /// An integer literal.
    Number(i64),
    /// Any other token.
    Other,
}

/// The ghost image of a token: the same shape over mathematical text.
pub ghost enum TokenView {
    Ident(Seq<char>),
    Comma,
    Text(Seq<char>),
    Number(i64),
    Other,
}

impl View for MacroToken {
    type V = TokenView;

    open spec fn view(&self) -> TokenView {
        match self {
            MacroToken::Ident(s) => TokenView::Ident(s@),
            MacroToken::Comma => TokenView::Comma,
            MacroToken::Text(s) => TokenView::Text(s@),
            MacroToken::Number(n) => TokenView::Number(*n),
            MacroToken::Other => TokenView::Other,
        }
    }
}

impl DeepView for MacroToken {
    type V = TokenView;

    open spec fn deep_view(&self) -> TokenView {
        self.view()
    }
}

} // verus!
