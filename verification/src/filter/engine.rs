//! The engine's front: text in, expression out; records in, matches out.

use crate::date::{Date, local_today};
use crate::filter::ast::{ExprView, Expression};
use crate::filter::eval::{evaluate_on, holds, reads_clock};
use crate::filter::laws::law_selection_depends_on_the_day_only_through_date_words;
use crate::filter::lexer::{LexError, lex, tokenize};
use crate::filter::parser::{Expected, ParseError, ParseErrorView, parse, parse_tokens};
use crate::filter::token::{Field, Operator};
use crate::text::{append_decimal, append_repeated, decimal, repeated};
use crate::things::types::Todo;
use vstd::prelude::*;
use vstd::string::*;
use vstd::utf8::encode_utf8;

verus! {

/// The records that the engine reads: the to-dos of the task manager. Of a
/// record the engine sees what `Todo::record` shows.
pub type Record = Todo;

/// Why a filter text was refused: by the tokenizer or by the parser.
#[derive(Debug, PartialEq, Eq)]
pub enum FilterCause {
    Lex(LexError),
    Parse(ParseError),
}

/// A refused filter text: the cause, and a message for the user that shows
/// the text with a pointer under the place of the error.
#[derive(Debug, PartialEq, Eq)]
pub struct FilterError {
    pub cause: FilterCause,
    pub message: String,
}

/// The mathematical value of a [`FilterCause`].
pub enum FilterCauseView {
    Lex(LexError),
    Parse(ParseErrorView),
}

impl View for FilterCause {
    type V = FilterCauseView;

    open spec fn view(&self) -> FilterCauseView {
        match *self {
            FilterCause::Lex(e) => FilterCauseView::Lex(e),
            FilterCause::Parse(e) => FilterCauseView::Parse(e@),
        }
    }
}

/// The way a field is written.
pub open spec fn field_text(field: Field) -> Seq<char> {
    match field {
        Field::Status => "status"@,
        Field::Due => "due"@,
        Field::Tags => "tags"@,
        Field::Project => "project"@,
        Field::Area => "area"@,
        Field::Name => "name"@,
        Field::Notes => "notes"@,
    }
}

/// The way an operator is written.
pub open spec fn operator_text(operator: Operator) -> Seq<char> {
    match operator {
        Operator::Equals => "="@,
        Operator::NotEquals => "!="@,
        Operator::LessThan => "<"@,
        Operator::GreaterThan => ">"@,
        Operator::Like => "LIKE"@,
        Operator::Contains => "CONTAINS"@,
        Operator::IsNull => "IS NULL"@,
    }
}

/// What was expected, in words.
pub open spec fn expected_text(expected: Expected) -> Seq<char> {
    match expected {
        Expected::Field => "a field"@,
        Expected::Operator => "an operator"@,
        Expected::Literal => "a literal"@,
    }
}

/// What went wrong, in words.
pub open spec fn describe(cause: FilterCauseView) -> Seq<char> {
    match cause {
        FilterCauseView::Lex(LexError::UnexpectedCharacter { .. }) => "unexpected character"@,
        FilterCauseView::Lex(LexError::UnterminatedString { .. }) => "unterminated string"@,
        FilterCauseView::Parse(ParseErrorView::UnexpectedToken { expected, .. }) => {
            "unexpected token, expected "@ + expected_text(expected)
        },
        FilterCauseView::Parse(ParseErrorView::UnexpectedEnd { expected }) => {
            "unexpected end of input, expected "@ + expected_text(expected)
        },
        FilterCauseView::Parse(ParseErrorView::UnbalancedParens { .. }) => {
            "unbalanced parentheses"@
        },
        FilterCauseView::Parse(ParseErrorView::UnknownField { name, .. }) => "unknown field '"@
            + name + "'"@,
        FilterCauseView::Parse(
            ParseErrorView::OperatorNotValidForField { field, operator, .. },
        ) => "operator "@ + operator_text(operator) + " is not valid for field "@ + field_text(
            field,
        ),
        FilterCauseView::Parse(ParseErrorView::TrailingInput { .. }) => {
            "unexpected input after the expression"@
        },
    }
}

/// The byte offset in `text` at which the error lies. An input that ends too
/// early has its error at its end.
pub open spec fn position(cause: FilterCauseView, text: Seq<char>) -> nat {
    match cause {
        FilterCauseView::Lex(LexError::UnexpectedCharacter { offset, .. }) => offset as nat,
        FilterCauseView::Lex(LexError::UnterminatedString { offset }) => offset as nat,
        FilterCauseView::Parse(ParseErrorView::UnexpectedToken { offset, .. }) => offset,
        FilterCauseView::Parse(ParseErrorView::UnexpectedEnd { .. }) => encode_utf8(text).len(),
        FilterCauseView::Parse(ParseErrorView::UnbalancedParens { offset }) => offset,
        FilterCauseView::Parse(ParseErrorView::UnknownField { offset, .. }) => offset,
        FilterCauseView::Parse(ParseErrorView::OperatorNotValidForField { offset, .. }) => offset,
        FilterCauseView::Parse(ParseErrorView::TrailingInput { offset }) => offset,
    }
}

/// The message for an error in `text`: what went wrong and at which offset,
/// then the text, then a caret that many columns in.
pub open spec fn message_text(cause: FilterCauseView, text: Seq<char>) -> Seq<char> {
    describe(cause) + " at offset "@ + decimal(position(cause, text)) + "\n  "@ + text + "\n  "@
        + repeated(' ', position(cause, text) as int) + "^"@
}

/// What `parse_filter` makes of the text `s`.
pub open spec fn parse_text(s: Seq<char>) -> Result<ExprView, FilterCauseView> {
    match lex(s) {
        Err(e) => Err(FilterCauseView::Lex(e)),
        Ok(tokens) => match parse_tokens(tokens) {
            Ok(e) => Ok(e),
            Err(e) => Err(FilterCauseView::Parse(e)),
        },
    }
}

fn field_name(field: Field) -> (r: &'static str)
    ensures
        r@ == field_text(field),
{
    match field {
        Field::Status => "status",
        Field::Due => "due",
        Field::Tags => "tags",
        Field::Project => "project",
        Field::Area => "area",
        Field::Name => "name",
        Field::Notes => "notes",
    }
}

fn operator_name(operator: Operator) -> (r: &'static str)
    ensures
        r@ == operator_text(operator),
{
    match operator {
        Operator::Equals => "=",
        Operator::NotEquals => "!=",
        Operator::LessThan => "<",
        Operator::GreaterThan => ">",
        Operator::Like => "LIKE",
        Operator::Contains => "CONTAINS",
        Operator::IsNull => "IS NULL",
    }
}

fn expected_name(expected: Expected) -> (r: &'static str)
    ensures
        r@ == expected_text(expected),
{
    match expected {
        Expected::Field => "a field",
        Expected::Operator => "an operator",
        Expected::Literal => "a literal",
    }
}

fn description(cause: &FilterCause) -> (r: String)
    ensures
        r@ == describe(cause@),
{
    let mut out = String::new();
    match cause {
        FilterCause::Lex(LexError::UnexpectedCharacter { .. }) => {
            out.append("unexpected character");
        },
        FilterCause::Lex(LexError::UnterminatedString { .. }) => {
            out.append("unterminated string");
        },
        FilterCause::Parse(ParseError::UnexpectedToken { expected, .. }) => {
            out.append("unexpected token, expected ");
            out.append(expected_name(*expected));
        },
        FilterCause::Parse(ParseError::UnexpectedEnd { expected }) => {
            out.append("unexpected end of input, expected ");
            out.append(expected_name(*expected));
        },
        FilterCause::Parse(ParseError::UnbalancedParens { .. }) => {
            out.append("unbalanced parentheses");
        },
        FilterCause::Parse(ParseError::UnknownField { name, .. }) => {
            out.append("unknown field '");
            out.append(name.as_str());
            out.append("'");
        },
        FilterCause::Parse(ParseError::OperatorNotValidForField { field, operator, .. }) => {
            out.append("operator ");
            out.append(operator_name(*operator));
            out.append(" is not valid for field ");
            out.append(field_name(*field));
        },
        FilterCause::Parse(ParseError::TrailingInput { .. }) => {
            out.append("unexpected input after the expression");
        },
    }
    assert(out@ =~= describe(cause@));
    out
}

fn offset_of(cause: &FilterCause, text: &str) -> (r: usize)
    ensures
        r == position(cause@, text@),
{
    match cause {
        FilterCause::Lex(LexError::UnexpectedCharacter { offset, .. }) => *offset,
        FilterCause::Lex(LexError::UnterminatedString { offset }) => *offset,
        FilterCause::Parse(ParseError::UnexpectedToken { offset, .. }) => *offset,
        FilterCause::Parse(ParseError::UnexpectedEnd { .. }) => text.as_bytes().len(),
        FilterCause::Parse(ParseError::UnbalancedParens { offset }) => *offset,
        FilterCause::Parse(ParseError::UnknownField { offset, .. }) => *offset,
        FilterCause::Parse(ParseError::OperatorNotValidForField { offset, .. }) => *offset,
        FilterCause::Parse(ParseError::TrailingInput { offset }) => *offset,
    }
}

impl FilterError {
    /// The error for `cause`, found in `text`, with its message.
    pub fn new(cause: FilterCause, text: &str) -> (r: FilterError)
        ensures
            r.cause == cause,
            r.message@ == message_text(cause@, text@),
    {
        let at = offset_of(&cause, text);
        let mut message = description(&cause);
        message.append(" at offset ");
        append_decimal(&mut message, at as u64);
        message.append("\n  ");
        message.append(text);
        message.append("\n  ");
        proof {
            reveal_strlit(" ");
        }
        append_repeated(&mut message, " ", at);
        message.append("^");
        assert(message@ =~= message_text(cause@, text@));
        FilterError { cause, message }
    }
}

/// Compiles a filter text into an expression.
///
/// The text is scanned and then parsed; the first error of either stage
/// comes back with a message for the user.
pub fn parse_filter(text: &str) -> (r: Result<Expression, FilterError>)
    ensures
        match parse_text(text@) {
            Ok(e) => r matches Ok(x) && x@ == e,
            Err(cause) => r matches Err(x) && x.cause@ == cause && x.message@ == message_text(
                cause,
                text@,
            ),
        },
{
    match tokenize(text) {
        Err(e) => Err(FilterError::new(FilterCause::Lex(e), text)),
        Ok(tokens) => match parse(&tokens) {
            Ok(expr) => Ok(expr),
            Err(e) => Err(FilterError::new(FilterCause::Parse(e), text)),
        },
    }
}

/// The records of `records` that satisfy `e` on the day `today`, in their
/// order.
pub open spec fn selected(records: Seq<Todo>, e: ExprView, today: Date) -> Seq<Todo>
    decreases records.len(),
{
    if records.len() == 0 {
        Seq::empty()
    } else {
        let rest = selected(records.drop_last(), e, today);
        if holds(e, records.last().record(), today) {
            rest.push(records.last())
        } else {
            rest
        }
    }
}

/// The records that a list of references points to.
pub open spec fn targets(refs: Seq<&Todo>) -> Seq<Todo> {
    Seq::new(refs.len(), |i: int| *refs[i])
}

/// The records that satisfy `expr` on the day `today`, in the order of
/// `records`.
pub fn filter_items_on<'a>(records: &'a [Record], expr: &Expression, today: Date) -> (r: Vec<
    &'a Record,
>)
    ensures
        targets(r@) == selected(records@, expr@, today),
{
    let mut out: Vec<&'a Record> = Vec::new();
    let mut i: usize = 0;
    proof {
        assert(records@.take(0) =~= Seq::<Todo>::empty());
        assert(targets(out@) =~= selected(records@.take(0), expr@, today));
    }
    while i < records.len()
        invariant
            i <= records.len(),
            targets(out@) == selected(records@.take(i as int), expr@, today),
        decreases records.len() - i,
    {
        let record = &records[i];
        let ghost before = targets(out@);
        proof {
            assert(records@.take(i + 1).drop_last() =~= records@.take(i as int));
        }
        if evaluate_on(expr, record, today) {
            out.push(record);
            proof {
                assert(targets(out@) =~= before.push(*record));
            }
        }
        i += 1;
    }
    proof {
        assert(records@.take(records@.len() as int) =~= records@);
    }
    out
}

/// The records that satisfy `expr` today, by the local clock, in the order
/// of `records`. The clock is read once for the whole list.
pub fn filter_items<'a>(records: &'a [Record], expr: &Expression) -> (r: Vec<&'a Record>)
    ensures
        exists|today: Date| targets(r@) == selected(records@, expr@, today),
        !reads_clock(expr@) ==> forall|day: Date| targets(r@) == selected(records@, expr@, day),
{
    let today = local_today();
    let r = filter_items_on(records, expr, today);
    proof {
        if !reads_clock(expr@) {
            assert forall|day: Date| targets(r@) == selected(records@, expr@, day) by {
                law_selection_depends_on_the_day_only_through_date_words(
                    records@,
                    expr@,
                    today,
                    day,
                );
            }
        }
    }
    r
}

} // verus!
