//! Tokens as the tokenizer hands them to the parser, and the parse error.

use vstd::prelude::*;

verus! {

/// The classification of a lexeme. The tokenizer produces exactly these kinds.
#[derive(Clone, Copy, PartialEq, Eq, Structural, Debug)]
pub enum TokenKind {
    /// End of the whole input.
    Eof,
    /// End of one source line.
    Eol,
    /// An identifier.
    Ident,
    /// An integer literal; the token's text is its decimal spelling.
    Int,
    /// The keyword that starts a constant binding.
    Const,
    /// The keyword naming the print-like built-in.
    Print,
    /// The assignment operator.
    Assign,
    Plus,
    Minus,
    Asterisk,
    Slash,
    Percent,
    /// The operator labelled "equal".
    Eq,
    /// The operator labelled "not equal".
    NotEq,
    /// The operator labelled "greater than".
    Gt,
    /// The operator labelled "less than".
    Lt,
    /// The operator labelled "greater or equal".
    Ge,
    /// The operator labelled "less or equal".
    Le,
    And,
    Or,
    Xor,
    LParen,
    RParen,
    Comma,
}

/// One classified lexeme: its kind and its literal text.
#[derive(PartialEq, Eq, Debug)]
pub struct Token {
    pub kind: TokenKind,
    pub value: String,
}

/// The mathematical image of a token: its kind and its text as a character
/// sequence.
pub struct TokenView {
    pub kind: TokenKind,
    pub text: Seq<char>,
}

impl View for Token {
    type V = TokenView;

    open spec fn view(&self) -> TokenView {
        TokenView { kind: self.kind, text: self.value@ }
    }
}

impl Clone for Token {
    fn clone(&self) -> (t: Token)
        ensures
            t == *self,
    {
        Token { kind: self.kind, value: self.value.clone() }
    }
}

/// A parse error: parsing stops at the first malformed construct and reports
/// the token at fault.
#[derive(PartialEq, Eq, Debug)]
pub enum ParseError {
    /// The given token was not acceptable where it stood.
    TokenInvalid(Token),
}

impl View for ParseError {
    type V = TokenView;

    open spec fn view(&self) -> TokenView {
        match self {
            ParseError::TokenInvalid(t) => t@,
        }
    }
}

} // verus!
