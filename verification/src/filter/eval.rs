//! The evaluator: whether a record satisfies an expression.
//!
//! Text is compared without regard to ASCII case. Dates are compared as
//! calendar dates; the words `today` and `tomorrow` are resolved against the
//! day on which the expression is evaluated.

use crate::date::{Date, iso_date};
use crate::filter::ast::{ExprView, Expression, Literal, operator_applies};
use crate::filter::engine::Record;
use crate::filter::laws::law_result_depends_on_the_day_only_through_date_words;
use crate::filter::token::{Field, Operator};
use crate::text::{
    chars_of,
    contains_ignore_case,
    contains_ignoring_case,
    eq_ignoring_case,
    fold,
    same_ignoring_case,
    text_is,
};
use crate::things::types::{RecordView, Todo, optional_text, status_text, texts};
use vstd::prelude::*;

verus! {

/// The date that the literal `text` names on the day `today`: `today`,
/// `tomorrow` (in any case), or a date written as `YYYY-MM-DD`.
pub open spec fn resolve_date(text: Seq<char>, today: Date) -> Option<Date> {
    if fold(text) == "today"@ {
        Some(today)
    } else if fold(text) == "tomorrow"@ {
        if today.ends_year() && today.year == i32::MAX {
            None
        } else {
            Some(today.next())
        }
    } else {
        iso_date(text)
    }
}

/// How a text that is present compares with a literal.
pub open spec fn text_matches(value: Seq<char>, operator: Operator, literal: Seq<char>) -> bool {
    match operator {
        Operator::Equals => same_ignoring_case(value, literal),
        Operator::NotEquals => !same_ignoring_case(value, literal),
        Operator::Like | Operator::Contains => contains_ignoring_case(value, literal),
        _ => false,
    }
}

/// How a text that may be absent compares with a literal. An absent text is
/// null, differs from every literal, and matches none.
pub open spec fn optional_text_matches(
    value: Option<Seq<char>>,
    operator: Operator,
    literal: Seq<char>,
) -> bool {
    match value {
        Some(text) => text_matches(text, operator, literal),
        None => operator == Operator::IsNull || operator == Operator::NotEquals,
    }
}

/// Whether one of `tags` is `literal`, ignoring ASCII case.
pub open spec fn has_tag(tags: Seq<Seq<char>>, literal: Seq<char>) -> bool {
    exists|i: int| 0 <= i < tags.len() && same_ignoring_case(#[trigger] tags[i], literal)
}

/// How a set of tags compares with a literal.
pub open spec fn tags_match(tags: Seq<Seq<char>>, operator: Operator, literal: Seq<char>) -> bool {
    match operator {
        Operator::Contains => has_tag(tags, literal),
        Operator::IsNull => tags.len() == 0,
        _ => false,
    }
}

/// How a due date compares with a literal on the day `today`. An absent date
/// is null and satisfies no other comparison; a literal that names no date
/// satisfies none either.
pub open spec fn due_matches(
    due: Option<Date>,
    operator: Operator,
    literal: Seq<char>,
    today: Date,
) -> bool {
    match operator {
        Operator::IsNull => due is None,
        _ => match (due, resolve_date(literal, today)) {
            (Some(d), Some(l)) => match operator {
                Operator::Equals => d == l,
                Operator::NotEquals => d != l,
                Operator::LessThan => d.precedes(l),
                Operator::GreaterThan => l.precedes(d),
                _ => false,
            },
            _ => false,
        },
    }
}

/// Whether the record satisfies one comparison on the day `today`. A
/// comparison whose operator the field does not take is satisfied by nothing.
pub open spec fn comparison_holds(
    field: Field,
    operator: Operator,
    literal: Seq<char>,
    record: RecordView,
    today: Date,
) -> bool {
    operator_applies(field, operator) && match field {
        Field::Status => text_matches(status_text(record.status), operator, literal),
        Field::Due => due_matches(record.due_date, operator, literal, today),
        Field::Tags => tags_match(record.tags, operator, literal),
        Field::Project => optional_text_matches(record.project, operator, literal),
        Field::Area => optional_text_matches(record.area, operator, literal),
        Field::Name => text_matches(record.name, operator, literal),
        Field::Notes => text_matches(record.notes, operator, literal),
    }
}

/// Whether the record satisfies the expression on the day `today`.
pub open spec fn holds(e: ExprView, record: RecordView, today: Date) -> bool
    decreases e,
{
    match e {
        ExprView::Comparison { field, operator, literal } => comparison_holds(
            field,
            operator,
            literal.text(),
            record,
            today,
        ),
        ExprView::And(a, b) => holds(*a, record, today) && holds(*b, record, today),
        ExprView::Or(a, b) => holds(*a, record, today) || holds(*b, record, today),
        ExprView::Not(a) => !holds(*a, record, today),
    }
}

/// Whether the result of the expression can depend on the day on which it is
/// evaluated: it compares the due date with `today` or `tomorrow`.
pub open spec fn reads_clock(e: ExprView) -> bool
    decreases e,
{
    match e {
        ExprView::Comparison { field, operator, literal } => field == Field::Due && operator
            != Operator::IsNull && (fold(literal.text()) == "today"@ || fold(literal.text())
            == "tomorrow"@),
        ExprView::And(a, b) => reads_clock(*a) || reads_clock(*b),
        ExprView::Or(a, b) => reads_clock(*a) || reads_clock(*b),
        ExprView::Not(a) => reads_clock(*a),
    }
}

fn resolve(literal: &Vec<char>, today: Date) -> (r: Option<Date>)
    ensures
        r == resolve_date(literal@, today),
{
    if text_is(literal, "today") {
        Some(today)
    } else if text_is(literal, "tomorrow") {
        today.succ()
    } else {
        Date::parse_iso(literal)
    }
}

fn compare_text(value: &str, operator: Operator, literal: &Vec<char>) -> (r: bool)
    ensures
        r == text_matches(value@, operator, literal@),
{
    let chars = chars_of(value);
    match operator {
        Operator::Equals => eq_ignoring_case(&chars, literal),
        Operator::NotEquals => !eq_ignoring_case(&chars, literal),
        Operator::Like | Operator::Contains => contains_ignore_case(&chars, literal),
        _ => false,
    }
}

fn compare_optional(value: &Option<String>, operator: Operator, literal: &Vec<char>) -> (r: bool)
    ensures
        r == optional_text_matches(optional_text(*value), operator, literal@),
{
    match value {
        Some(text) => compare_text(text.as_str(), operator, literal),
        None => matches!(operator, Operator::IsNull) || matches!(operator, Operator::NotEquals),
    }
}

fn any_tag(tags: &Vec<String>, literal: &Vec<char>) -> (r: bool)
    ensures
        r == has_tag(texts(tags@), literal@),
{
    let mut i: usize = 0;
    while i < tags.len()
        invariant
            i <= tags.len(),
            forall|k: int| 0 <= k < i ==> !same_ignoring_case(#[trigger] texts(tags@)[k], literal@),
        decreases tags.len() - i,
    {
        let chars = chars_of(tags[i].as_str());
        if eq_ignoring_case(&chars, literal) {
            assert(same_ignoring_case(texts(tags@)[i as int], literal@));
            return true;
        }
        i += 1;
    }
    false
}

fn compare_tags(tags: &Vec<String>, operator: Operator, literal: &Vec<char>) -> (r: bool)
    ensures
        r == tags_match(texts(tags@), operator, literal@),
{
    match operator {
        Operator::Contains => any_tag(tags, literal),
        Operator::IsNull => tags.len() == 0,
        _ => false,
    }
}

fn compare_due(due: Option<Date>, operator: Operator, literal: &Vec<char>, today: Date) -> (r:
    bool)
    ensures
        r == due_matches(due, operator, literal@, today),
{
    if matches!(operator, Operator::IsNull) {
        return due.is_none();
    }
    match (due, resolve(literal, today)) {
        (Some(d), Some(l)) => match operator {
            Operator::Equals => d == l,
            Operator::NotEquals => d != l,
            Operator::LessThan => d.is_before(&l),
            Operator::GreaterThan => l.is_before(&d),
            _ => false,
        },
        _ => false,
    }
}

fn compare(field: Field, operator: Operator, literal: &Literal, record: &Todo, today: Date) -> (r:
    bool)
    ensures
        r == comparison_holds(field, operator, literal@.text(), record.record(), today),
{
    if !field.accepts(operator) {
        return false;
    }
    let text: &String = match literal {
        Literal::Text(s) => s,
        Literal::DateKeyword(s) => s,
    };
    let chars = chars_of(text.as_str());
    match field {
        Field::Status => compare_text(record.status.as_str(), operator, &chars),
        Field::Due => compare_due(record.due_date, operator, &chars, today),
        Field::Tags => compare_tags(&record.tags, operator, &chars),
        Field::Project => compare_optional(&record.project, operator, &chars),
        Field::Area => compare_optional(&record.area, operator, &chars),
        Field::Name => compare_text(record.name.as_str(), operator, &chars),
        Field::Notes => compare_text(record.notes.as_str(), operator, &chars),
    }
}

/// Whether `record` satisfies `expr` on the day `today`.
///
/// `And` does not look at its right operand where the left one fails, and
/// `Or` does not where the left one holds.
pub fn evaluate_on(expr: &Expression, record: &Record, today: Date) -> (r: bool)
    ensures
        r == holds(expr@, record.record(), today),
    decreases expr,
{
    match expr {
        Expression::Comparison { field, operator, literal } => compare(
            *field,
            *operator,
            literal,
            record,
            today,
        ),
        Expression::And(a, b) => evaluate_on(a, record, today) && evaluate_on(b, record, today),
        Expression::Or(a, b) => evaluate_on(a, record, today) || evaluate_on(b, record, today),
        Expression::Not(a) => !evaluate_on(a, record, today),
    }
}

/// Whether `record` satisfies `expr` today, by the local clock. The clock
/// decides only where the expression names `today` or `tomorrow`.
pub fn evaluate(expr: &Expression, record: &Record) -> (r: bool)
    ensures
        exists|today: Date| r == holds(expr@, record.record(), today),
        !reads_clock(expr@) ==> forall|day: Date| r == holds(expr@, record.record(), day),
{
    let today = crate::date::local_today();
    let r = evaluate_on(expr, record, today);
    proof {
        if !reads_clock(expr@) {
            assert forall|day: Date| r == holds(expr@, record.record(), day) by {
                law_result_depends_on_the_day_only_through_date_words(
                    expr@,
                    record.record(),
                    today,
                    day,
                );
            }
        }
    }
    r
}

} // verus!
