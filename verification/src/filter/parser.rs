//! The parser: from a run of tokens to an expression tree.
//!
//! The grammar, from loosest to tightest binding:
//!
//! ```text
//! or_expr    := and_expr ( OR and_expr )*
//! and_expr   := not_expr ( AND not_expr )*
//! not_expr   := NOT not_expr | "(" or_expr ")" | comparison
//! comparison := field operator literal | field IS NULL
//! ```
//!
//! `AND` and `OR` group to the left. The whole input must be one expression.

use crate::filter::ast::{ExprView, Expression, Literal, LiteralView, field_named, operator_applies};
use crate::filter::token::{
    Field,
    Logical,
    Operator,
    Token,
    TokenKind,
    TokenKindView,
    TokenView,
    kinds_of,
    views_of,
};
use crate::text::{chars_of, text_is};
use vstd::prelude::*;

verus! {

/// What the parser was looking for when it gave up.
#[derive(Clone, Copy, Debug, PartialEq, Eq, Structural)]
pub enum Expected {
    Field,
    Operator,
    Literal,
}

/// Why a run of tokens is no expression. Offsets are those of the tokens.
#[derive(Debug, PartialEq, Eq)]
pub enum ParseError {
    /// A token that cannot stand where it stands.
    UnexpectedToken { found: TokenKind, expected: Expected, offset: usize },
    /// The input ends where more was required.
    UnexpectedEnd { expected: Expected },
    /// An opening parenthesis at `offset` that is never closed, or a closing
    /// one at `offset` that closes nothing.
    UnbalancedParens { offset: usize },
    /// A word in field position that names no field.
    UnknownField { name: String, offset: usize },
    /// An operator, at `offset`, that the field before it does not take.
    OperatorNotValidForField { field: Field, operator: Operator, offset: usize },
    /// A token at `offset` after the end of a complete expression.
    TrailingInput { offset: usize },
}

/// The mathematical value of a [`ParseError`].
pub enum ParseErrorView {
    UnexpectedToken { found: TokenKindView, expected: Expected, offset: nat },
    UnexpectedEnd { expected: Expected },
    UnbalancedParens { offset: nat },
    UnknownField { name: Seq<char>, offset: nat },
    OperatorNotValidForField { field: Field, operator: Operator, offset: nat },
    TrailingInput { offset: nat },
}

impl View for ParseError {
    type V = ParseErrorView;

    open spec fn view(&self) -> ParseErrorView {
        match *self {
            ParseError::UnexpectedToken { found, expected, offset } => {
                ParseErrorView::UnexpectedToken { found: found@, expected, offset: offset as nat }
            },
            ParseError::UnexpectedEnd { expected } => ParseErrorView::UnexpectedEnd { expected },
            ParseError::UnbalancedParens { offset } => ParseErrorView::UnbalancedParens {
                offset: offset as nat,
            },
            ParseError::UnknownField { name, offset } => ParseErrorView::UnknownField {
                name: name@,
                offset: offset as nat,
            },
            ParseError::OperatorNotValidForField {
                field,
                operator,
                offset,
            } => ParseErrorView::OperatorNotValidForField { field, operator, offset: offset as nat },
            ParseError::TrailingInput { offset } => ParseErrorView::TrailingInput {
                offset: offset as nat,
            },
        }
    }
}

/// Why a run of token kinds is no expression, by position in the run.
pub enum ParseFault {
    UnexpectedToken { found: TokenKindView, expected: Expected, at: int },
    UnexpectedEnd { expected: Expected },
    UnbalancedParens { at: int },
    UnknownField { name: Seq<char>, at: int },
    OperatorNotValidForField { field: Field, operator: Operator, at: int },
    TrailingInput { at: int },
}

/// An expression and the position of the first token after it.
pub struct Parsed {
    pub expr: ExprView,
    pub next: int,
}

/// The kind of the token at position `p`; past the end of the run, `Eof`.
pub open spec fn kind_at(ks: Seq<TokenKindView>, p: int) -> TokenKindView {
    if 0 <= p < ks.len() {
        ks[p]
    } else {
        TokenKindView::Eof
    }
}

/// The fault for a token that cannot stand at position `p`.
pub open spec fn unexpected(ks: Seq<TokenKindView>, p: int, expected: Expected) -> ParseFault {
    match kind_at(ks, p) {
        TokenKindView::Eof => ParseFault::UnexpectedEnd { expected },
        found => ParseFault::UnexpectedToken { found, expected, at: p },
    }
}

/// The literal that the token at position `p` writes, if it writes one.
pub open spec fn literal_at(ks: Seq<TokenKindView>, p: int) -> Option<LiteralView> {
    match kind_at(ks, p) {
        TokenKindView::StringLiteral(s) => Some(LiteralView::Text(s)),
        TokenKindView::Identifier(s) => Some(LiteralView::Text(s)),
        TokenKindView::DateLiteral(s) => Some(LiteralView::DateKeyword(s)),
        _ => None,
    }
}

/// `comparison := field operator literal | field IS NULL`
pub open spec fn parse_comparison(ks: Seq<TokenKindView>, p: int) -> Result<Parsed, ParseFault> {
    match kind_at(ks, p) {
        TokenKindView::Identifier(name) => match field_named(name) {
            None => Err(ParseFault::UnknownField { name, at: p }),
            Some(field) => match kind_at(ks, p + 1) {
                TokenKindView::Operator(operator) => {
                    if !operator_applies(field, operator) {
                        Err(ParseFault::OperatorNotValidForField { field, operator, at: p + 1 })
                    } else if operator == Operator::IsNull {
                        Ok(
                            Parsed {
                                expr: ExprView::Comparison {
                                    field,
                                    operator,
                                    literal: LiteralView::Text(Seq::empty()),
                                },
                                next: p + 2,
                            },
                        )
                    } else {
                        match literal_at(ks, p + 2) {
                            Some(literal) => Ok(
                                Parsed {
                                    expr: ExprView::Comparison { field, operator, literal },
                                    next: p + 3,
                                },
                            ),
                            None => Err(unexpected(ks, p + 2, Expected::Literal)),
                        }
                    }
                },
                _ => Err(unexpected(ks, p + 1, Expected::Operator)),
            },
        },
        _ => Err(unexpected(ks, p, Expected::Field)),
    }
}

/// `r`, provided that it ends after `p` and inside the run. Every parse does,
/// as `lemma_parse_advances` shows: the other case is there so that the
/// definitions below visibly terminate.
pub open spec fn advancing(r: Result<Parsed, ParseFault>, p: int, len: int) -> Result<
    Parsed,
    ParseFault,
> {
    match r {
        Ok(parsed) => if p < parsed.next <= len {
            r
        } else {
            Err(ParseFault::UnexpectedEnd { expected: Expected::Field })
        },
        Err(_) => r,
    }
}

/// `not_expr := NOT not_expr | "(" or_expr ")" | comparison`
pub open spec fn parse_not(ks: Seq<TokenKindView>, p: int) -> Result<Parsed, ParseFault>
    decreases ks.len() - p, 1int,
{
    match kind_at(ks, p) {
        TokenKindView::LogicalKeyword(Logical::Not) => match parse_not(ks, p + 1) {
            Ok(inner) => Ok(Parsed { expr: ExprView::Not(Box::new(inner.expr)), next: inner.next }),
            Err(f) => Err(f),
        },
        TokenKindView::LParen => match parse_or(ks, p + 1) {
            Ok(inner) => match kind_at(ks, inner.next) {
                TokenKindView::RParen => Ok(Parsed { expr: inner.expr, next: inner.next + 1 }),
                _ => Err(ParseFault::UnbalancedParens { at: p }),
            },
            Err(f) => Err(f),
        },
        _ => parse_comparison(ks, p),
    }
}

/// The rest of an `and_expr` whose operands so far make up `left`.
pub open spec fn parse_and_rest(ks: Seq<TokenKindView>, left: ExprView, q: int) -> Result<
    Parsed,
    ParseFault,
>
    decreases ks.len() - q, 0int,
{
    match kind_at(ks, q) {
        TokenKindView::LogicalKeyword(Logical::And) => match advancing(
            parse_not(ks, q + 1),
            q + 1,
            ks.len() as int,
        ) {
            Ok(right) => parse_and_rest(
                ks,
                ExprView::And(Box::new(left), Box::new(right.expr)),
                right.next,
            ),
            Err(f) => Err(f),
        },
        _ => Ok(Parsed { expr: left, next: q }),
    }
}

/// `and_expr := not_expr ( AND not_expr )*`
pub open spec fn parse_and(ks: Seq<TokenKindView>, p: int) -> Result<Parsed, ParseFault>
    decreases ks.len() - p, 2int,
{
    match advancing(parse_not(ks, p), p, ks.len() as int) {
        Ok(first) => parse_and_rest(ks, first.expr, first.next),
        Err(f) => Err(f),
    }
}

/// The rest of an `or_expr` whose operands so far make up `left`.
pub open spec fn parse_or_rest(ks: Seq<TokenKindView>, left: ExprView, q: int) -> Result<
    Parsed,
    ParseFault,
>
    decreases ks.len() - q, 3int,
{
    match kind_at(ks, q) {
        TokenKindView::LogicalKeyword(Logical::Or) => match advancing(
            parse_and(ks, q + 1),
            q + 1,
            ks.len() as int,
        ) {
            Ok(right) => parse_or_rest(
                ks,
                ExprView::Or(Box::new(left), Box::new(right.expr)),
                right.next,
            ),
            Err(f) => Err(f),
        },
        _ => Ok(Parsed { expr: left, next: q }),
    }
}

/// `or_expr := and_expr ( OR and_expr )*`
pub open spec fn parse_or(ks: Seq<TokenKindView>, p: int) -> Result<Parsed, ParseFault>
    decreases ks.len() - p, 4int,
{
    match advancing(parse_and(ks, p), p, ks.len() as int) {
        Ok(first) => parse_or_rest(ks, first.expr, first.next),
        Err(f) => Err(f),
    }
}

/// The expression that the whole run `ks` writes.
pub open spec fn parse_kinds(ks: Seq<TokenKindView>) -> Result<ExprView, ParseFault> {
    match parse_or(ks, 0) {
        Ok(parsed) => match kind_at(ks, parsed.next) {
            TokenKindView::Eof => Ok(parsed.expr),
            TokenKindView::RParen => Err(ParseFault::UnbalancedParens { at: parsed.next }),
            _ => Err(ParseFault::TrailingInput { at: parsed.next }),
        },
        Err(f) => Err(f),
    }
}

/// The offset of the token at position `p` (0 where there is none).
pub open spec fn offset_at(ts: Seq<TokenView>, p: int) -> nat {
    if 0 <= p < ts.len() {
        ts[p].offset
    } else {
        0
    }
}

/// The error that a fault in the run `ts` becomes.
pub open spec fn error_of(f: ParseFault, ts: Seq<TokenView>) -> ParseErrorView {
    match f {
        ParseFault::UnexpectedToken { found, expected, at } => ParseErrorView::UnexpectedToken {
            found,
            expected,
            offset: offset_at(ts, at),
        },
        ParseFault::UnexpectedEnd { expected } => ParseErrorView::UnexpectedEnd { expected },
        ParseFault::UnbalancedParens { at } => ParseErrorView::UnbalancedParens {
            offset: offset_at(ts, at),
        },
        ParseFault::UnknownField { name, at } => ParseErrorView::UnknownField {
            name,
            offset: offset_at(ts, at),
        },
        ParseFault::OperatorNotValidForField {
            field,
            operator,
            at,
        } => ParseErrorView::OperatorNotValidForField { field, operator, offset: offset_at(ts, at) },
        ParseFault::TrailingInput { at } => ParseErrorView::TrailingInput {
            offset: offset_at(ts, at),
        },
    }
}

/// The kinds of a run of token values.
pub open spec fn kinds(ts: Seq<TokenView>) -> Seq<TokenKindView> {
    Seq::new(ts.len(), |i: int| ts[i].kind)
}

/// The expression that the run of tokens `ts` writes, or why it writes none.
pub open spec fn parse_tokens(ts: Seq<TokenView>) -> Result<ExprView, ParseErrorView> {
    match parse_kinds(kinds(ts)) {
        Ok(e) => Ok(e),
        Err(f) => Err(error_of(f, ts)),
    }
}

/// A successful parse ends after its start and inside the run.
pub proof fn lemma_parse_advances(ks: Seq<TokenKindView>, p: int)
    requires
        0 <= p,
    ensures
        parse_comparison(ks, p) matches Ok(r) ==> p < r.next <= ks.len(),
        parse_not(ks, p) matches Ok(r) ==> p < r.next <= ks.len(),
        parse_and(ks, p) matches Ok(r) ==> p < r.next <= ks.len(),
        parse_or(ks, p) matches Ok(r) ==> p < r.next <= ks.len(),
        advancing(parse_not(ks, p), p, ks.len() as int) == parse_not(ks, p),
        advancing(parse_and(ks, p), p, ks.len() as int) == parse_and(ks, p),
    decreases ks.len() - p, 5int,
{
    lemma_not_advances(ks, p);
    if parse_not(ks, p) is Ok {
        lemma_and_rest_advances(ks, parse_not(ks, p)->Ok_0.expr, parse_not(ks, p)->Ok_0.next);
    }
    if parse_and(ks, p) is Ok {
        lemma_or_rest_advances(ks, parse_and(ks, p)->Ok_0.expr, parse_and(ks, p)->Ok_0.next);
    }
}

proof fn lemma_not_advances(ks: Seq<TokenKindView>, p: int)
    requires
        0 <= p,
    ensures
        parse_comparison(ks, p) matches Ok(r) ==> p < r.next <= ks.len(),
        parse_not(ks, p) matches Ok(r) ==> p < r.next <= ks.len(),
    decreases ks.len() - p, 1int,
{
    match kind_at(ks, p) {
        TokenKindView::LogicalKeyword(Logical::Not) => {
            lemma_not_advances(ks, p + 1);
        },
        TokenKindView::LParen => {
            lemma_parse_advances(ks, p + 1);
        },
        _ => {},
    }
}

proof fn lemma_and_rest_advances(ks: Seq<TokenKindView>, left: ExprView, q: int)
    requires
        0 <= q <= ks.len(),
    ensures
        parse_and_rest(ks, left, q) matches Ok(r) ==> q <= r.next <= ks.len(),
    decreases ks.len() - q, 0int,
{
    match kind_at(ks, q) {
        TokenKindView::LogicalKeyword(Logical::And) => {
            match advancing(parse_not(ks, q + 1), q + 1, ks.len() as int) {
                Ok(right) => {
                    lemma_and_rest_advances(
                        ks,
                        ExprView::And(Box::new(left), Box::new(right.expr)),
                        right.next,
                    );
                },
                Err(_) => {},
            }
        },
        _ => {},
    }
}

proof fn lemma_or_rest_advances(ks: Seq<TokenKindView>, left: ExprView, q: int)
    requires
        0 <= q <= ks.len(),
    ensures
        parse_or_rest(ks, left, q) matches Ok(r) ==> q <= r.next <= ks.len(),
    decreases ks.len() - q, 3int,
{
    match kind_at(ks, q) {
        TokenKindView::LogicalKeyword(Logical::Or) => {
            match advancing(parse_and(ks, q + 1), q + 1, ks.len() as int) {
                Ok(right) => {
                    lemma_or_rest_advances(
                        ks,
                        ExprView::Or(Box::new(left), Box::new(right.expr)),
                        right.next,
                    );
                },
                Err(_) => {},
            }
        },
        _ => {},
    }
}

/// Whether what the parser returned is what the grammar prescribes.
pub open spec fn agrees(
    r: Result<(Expression, usize), ParseError>,
    want: Result<Parsed, ParseFault>,
    ts: Seq<TokenView>,
) -> bool {
    match want {
        Ok(parsed) => r matches Ok((e, n)) && e@ == parsed.expr && n == parsed.next,
        Err(f) => r matches Err(e) && e@ == error_of(f, ts),
    }
}

/// The kinds of the values of a run of tokens are the kinds of its tokens.
proof fn lemma_kinds(tokens: Seq<Token>)
    ensures
        kinds(views_of(tokens)) == kinds_of(tokens),
{
    assert(kinds(views_of(tokens)) =~= kinds_of(tokens));
}

/// The token at `pos`, if there is one.
fn token_at(tokens: &Vec<Token>, pos: usize) -> (r: Option<&Token>)
    ensures
        pos < tokens.len() ==> r == Some(&tokens@[pos as int]),
        pos >= tokens.len() ==> r is None,
{
    if pos < tokens.len() {
        Some(&tokens[pos])
    } else {
        None
    }
}

/// The error for a token that cannot stand at `pos`.
fn reject(tokens: &Vec<Token>, pos: usize, expected: Expected) -> (r: ParseError)
    ensures
        r@ == error_of(unexpected(kinds_of(tokens@), pos as int, expected), views_of(tokens@)),
{
    match token_at(tokens, pos) {
        None => ParseError::UnexpectedEnd { expected },
        Some(token) => match &token.kind {
            TokenKind::Eof => ParseError::UnexpectedEnd { expected },
            _ => ParseError::UnexpectedToken {
                found: token.kind.duplicate(),
                expected,
                offset: token.offset,
            },
        },
    }
}

/// The field that `name` refers to, ignoring ASCII case.
pub fn field_from_name(name: &str) -> (r: Option<Field>)
    ensures
        r == field_named(name@),
{
    let chars = chars_of(name);
    if text_is(&chars, "status") {
        Some(Field::Status)
    } else if text_is(&chars, "due") {
        Some(Field::Due)
    } else if text_is(&chars, "tags") {
        Some(Field::Tags)
    } else if text_is(&chars, "project") {
        Some(Field::Project)
    } else if text_is(&chars, "area") {
        Some(Field::Area)
    } else if text_is(&chars, "name") {
        Some(Field::Name)
    } else if text_is(&chars, "notes") {
        Some(Field::Notes)
    } else {
        None
    }
}

/// The literal that the token at `pos` writes, if it writes one.
fn literal_from(tokens: &Vec<Token>, pos: usize) -> (r: Option<Literal>)
    ensures
        match literal_at(kinds_of(tokens@), pos as int) {
            Some(l) => r matches Some(x) && x@ == l,
            None => r is None,
        },
{
    match token_at(tokens, pos) {
        None => None,
        Some(token) => match &token.kind {
            TokenKind::StringLiteral(s) => Some(Literal::Text(s.clone())),
            TokenKind::Identifier(s) => Some(Literal::Text(s.clone())),
            TokenKind::DateLiteral(s) => Some(Literal::DateKeyword(s.clone())),
            _ => None,
        },
    }
}

fn comparison(tokens: &Vec<Token>, pos: usize) -> (r: Result<(Expression, usize), ParseError>)
    ensures
        agrees(r, parse_comparison(kinds_of(tokens@), pos as int), views_of(tokens@)),
{
    proof {
        lemma_parse_advances(kinds_of(tokens@), pos as int);
    }
    let name: &String = match token_at(tokens, pos) {
        Some(token) => match &token.kind {
            TokenKind::Identifier(name) => name,
            _ => { return Err(reject(tokens, pos, Expected::Field)); },
        },
        None => { return Err(reject(tokens, pos, Expected::Field)); },
    };
    let offset = tokens[pos].offset;
    let field = match field_from_name(name.as_str()) {
        Some(field) => field,
        None => { return Err(ParseError::UnknownField { name: name.clone(), offset }); },
    };
    let operator: Operator = match token_at(tokens, pos + 1) {
        Some(token) => match &token.kind {
            TokenKind::Operator(operator) => *operator,
            _ => { return Err(reject(tokens, pos + 1, Expected::Operator)); },
        },
        None => { return Err(reject(tokens, pos + 1, Expected::Operator)); },
    };
    if !field.accepts(operator) {
        return Err(
            ParseError::OperatorNotValidForField {
                field,
                operator,
                offset: tokens[pos + 1].offset,
            },
        );
    }
    if matches!(operator, Operator::IsNull) {
        let literal = Literal::Text(String::new());
        return Ok((Expression::Comparison { field, operator, literal }, pos + 2));
    }
    match literal_from(tokens, pos + 2) {
        Some(literal) => Ok((Expression::Comparison { field, operator, literal }, pos + 3)),
        None => Err(reject(tokens, pos + 2, Expected::Literal)),
    }
}

fn negation(tokens: &Vec<Token>, pos: usize) -> (r: Result<(Expression, usize), ParseError>)
    ensures
        agrees(r, parse_not(kinds_of(tokens@), pos as int), views_of(tokens@)),
    decreases tokens.len() - pos, 1int,
{
    proof {
        lemma_parse_advances(kinds_of(tokens@), pos as int);
        lemma_parse_advances(kinds_of(tokens@), pos + 1);
    }
    let lead: u8 = match token_at(tokens, pos) {
        Some(token) => match &token.kind {
            TokenKind::LogicalKeyword(Logical::Not) => 1,
            TokenKind::LParen => 2,
            _ => 0,
        },
        None => 0,
    };
    if lead == 1 {
        match negation(tokens, pos + 1) {
            Ok((inner, next)) => Ok((Expression::Not(Box::new(inner)), next)),
            Err(e) => Err(e),
        }
    } else if lead == 2 {
        match disjunction(tokens, pos + 1) {
            Ok((inner, next)) => {
                let closed = match token_at(tokens, next) {
                    Some(token) => matches!(token.kind, TokenKind::RParen),
                    None => false,
                };
                if closed {
                    Ok((inner, next + 1))
                } else {
                    Err(ParseError::UnbalancedParens { offset: tokens[pos].offset })
                }
            },
            Err(e) => Err(e),
        }
    } else {
        comparison(tokens, pos)
    }
}

fn conjunction(tokens: &Vec<Token>, pos: usize) -> (r: Result<(Expression, usize), ParseError>)
    ensures
        agrees(r, parse_and(kinds_of(tokens@), pos as int), views_of(tokens@)),
    decreases tokens.len() - pos, 2int,
{
    let ghost ks = kinds_of(tokens@);
    proof {
        lemma_parse_advances(ks, pos as int);
    }
    let (mut left, mut q) = match negation(tokens, pos) {
        Ok(first) => first,
        Err(e) => { return Err(e); },
    };
    loop
        invariant
            pos < q <= tokens.len(),
            ks == kinds_of(tokens@),
            parse_and(ks, pos as int) == parse_and_rest(ks, left@, q as int),
        decreases tokens.len() - q,
    {
        let more = match token_at(tokens, q) {
            Some(token) => matches!(token.kind, TokenKind::LogicalKeyword(Logical::And)),
            None => false,
        };
        if !more {
            return Ok((left, q));
        }
        proof {
            lemma_parse_advances(ks, q + 1);
        }
        match negation(tokens, q + 1) {
            Ok((right, next)) => {
                left = Expression::And(Box::new(left), Box::new(right));
                q = next;
            },
            Err(e) => { return Err(e); },
        }
    }
}

fn disjunction(tokens: &Vec<Token>, pos: usize) -> (r: Result<(Expression, usize), ParseError>)
    ensures
        agrees(r, parse_or(kinds_of(tokens@), pos as int), views_of(tokens@)),
    decreases tokens.len() - pos, 4int,
{
    let ghost ks = kinds_of(tokens@);
    proof {
        lemma_parse_advances(ks, pos as int);
    }
    let (mut left, mut q) = match conjunction(tokens, pos) {
        Ok(first) => first,
        Err(e) => { return Err(e); },
    };
    loop
        invariant
            pos < q <= tokens.len(),
            ks == kinds_of(tokens@),
            parse_or(ks, pos as int) == parse_or_rest(ks, left@, q as int),
        decreases tokens.len() - q,
    {
        let more = match token_at(tokens, q) {
            Some(token) => matches!(token.kind, TokenKind::LogicalKeyword(Logical::Or)),
            None => false,
        };
        if !more {
            return Ok((left, q));
        }
        proof {
            lemma_parse_advances(ks, q + 1);
        }
        match conjunction(tokens, q + 1) {
            Ok((right, next)) => {
                left = Expression::Or(Box::new(left), Box::new(right));
                q = next;
            },
            Err(e) => { return Err(e); },
        }
    }
}

/// Parses a run of tokens as exactly one expression.
///
/// The run is read up to its first `Eof`; a run without one is read to its
/// end.
pub fn parse(tokens: &Vec<Token>) -> (r: Result<Expression, ParseError>)
    ensures
        match parse_tokens(views_of(tokens@)) {
            Ok(e) => r matches Ok(x) && x@ == e,
            Err(e) => r matches Err(x) && x@ == e,
        },
{
    proof {
        lemma_kinds(tokens@);
        lemma_parse_advances(kinds_of(tokens@), 0);
    }
    match disjunction(tokens, 0) {
        Ok((expr, next)) => match token_at(tokens, next) {
            None => Ok(expr),
            Some(token) => match &token.kind {
                TokenKind::Eof => Ok(expr),
                TokenKind::RParen => Err(ParseError::UnbalancedParens { offset: token.offset }),
                _ => Err(ParseError::TrailingInput { offset: token.offset }),
            },
        },
        Err(e) => Err(e),
    }
}

} // verus!
