//! Lexical tokens of the filter language.

use vstd::prelude::*;

verus! {

/// The boolean connectives of the language.
#[derive(Clone, Copy, Debug, PartialEq, Eq, Structural)]
pub enum Logical {
    And,
    Or,
    Not,
}

/// The attributes of a record that a filter can refer to.
#[derive(Clone, Copy, Debug, PartialEq, Eq, Structural)]
pub enum Field {
    Status,
    Due,
    Tags,
    Project,
    Area,
    Name,
    Notes,
}

/// The comparison operators.
#[derive(Clone, Copy, Debug, PartialEq, Eq, Structural)]
pub enum Operator {
    Equals,
    NotEquals,
    LessThan,
    GreaterThan,
    Like,
    Contains,
    IsNull,
}

/// What a token is, with the text it carries.
#[derive(Clone, Debug, PartialEq, Eq)]
pub enum TokenKind {
    /// A bare word that is no keyword and no date.
    Identifier(String),
    /// The text between a pair of quotes.
    StringLiteral(String),
    /// A bare word that names a date: `today`, `tomorrow`, or a word that
    /// starts with a digit. It is kept as written.
    DateLiteral(String),
    Operator(Operator),
    LogicalKeyword(Logical),
    LParen,
    RParen,
    /// The end of the input; the last token of every scan.
    Eof,
}

/// A token and the byte offset in the source at which it starts.
#[derive(Clone, Debug, PartialEq, Eq)]
pub struct Token {
    pub kind: TokenKind,
    pub offset: usize,
}

/// The mathematical value of a [`TokenKind`].
pub enum TokenKindView {
    Identifier(Seq<char>),
    StringLiteral(Seq<char>),
    DateLiteral(Seq<char>),
    Operator(Operator),
    LogicalKeyword(Logical),
    LParen,
    RParen,
    Eof,
}

/// The mathematical value of a [`Token`].
pub struct TokenView {
    pub kind: TokenKindView,
    pub offset: nat,
}

impl View for TokenKind {
    type V = TokenKindView;

    open spec fn view(&self) -> TokenKindView {
        match *self {
            TokenKind::Identifier(s) => TokenKindView::Identifier(s@),
            TokenKind::StringLiteral(s) => TokenKindView::StringLiteral(s@),
            TokenKind::DateLiteral(s) => TokenKindView::DateLiteral(s@),
            TokenKind::Operator(op) => TokenKindView::Operator(op),
            TokenKind::LogicalKeyword(l) => TokenKindView::LogicalKeyword(l),
            TokenKind::LParen => TokenKindView::LParen,
            TokenKind::RParen => TokenKindView::RParen,
            TokenKind::Eof => TokenKindView::Eof,
        }
    }
}

impl View for Token {
    type V = TokenView;

    open spec fn view(&self) -> TokenView {
        TokenView { kind: self.kind@, offset: self.offset as nat }
    }
}

/// The values of a run of tokens.
pub open spec fn views_of(tokens: Seq<Token>) -> Seq<TokenView> {
    Seq::new(tokens.len(), |i: int| tokens[i]@)
}

/// The kinds of a run of tokens, without their offsets.
pub open spec fn kinds_of(tokens: Seq<Token>) -> Seq<TokenKindView> {
    Seq::new(tokens.len(), |i: int| tokens[i].kind@)
}

impl TokenKind {
    /// A copy of this kind, text included.
    pub fn duplicate(&self) -> (r: TokenKind)
        ensures
            r@ == self@,
    {
        match self {
            TokenKind::Identifier(s) => TokenKind::Identifier(s.clone()),
            TokenKind::StringLiteral(s) => TokenKind::StringLiteral(s.clone()),
            TokenKind::DateLiteral(s) => TokenKind::DateLiteral(s.clone()),
            TokenKind::Operator(op) => TokenKind::Operator(*op),
            TokenKind::LogicalKeyword(l) => TokenKind::LogicalKeyword(*l),
            TokenKind::LParen => TokenKind::LParen,
            TokenKind::RParen => TokenKind::RParen,
            TokenKind::Eof => TokenKind::Eof,
        }
    }
}

} // verus!
