//! Expression trees, and the rule that says which operator a field takes.

use crate::filter::token::{Field, Operator};
use crate::text::fold;
use vstd::prelude::*;

verus! {

/// A constant that a field is compared with.
#[derive(Clone, Debug, PartialEq, Eq)]
pub enum Literal {
    /// A quoted string or a bare word.
    Text(String),
    /// A bare date word, kept as written: it is resolved against the calendar
    /// only when the expression is evaluated.
    DateKeyword(String),
}

/// A parsed filter.
#[derive(Debug, PartialEq, Eq)]
pub enum Expression {
    /// One field compared with one literal. For `IsNull` the literal is the
    /// empty text.
    Comparison { field: Field, operator: Operator, literal: Literal },
    And(Box<Expression>, Box<Expression>),
    Or(Box<Expression>, Box<Expression>),
    Not(Box<Expression>),
}

/// The mathematical value of a [`Literal`].
pub enum LiteralView {
    Text(Seq<char>),
    DateKeyword(Seq<char>),
}

/// The mathematical value of an [`Expression`].
pub enum ExprView {
    Comparison { field: Field, operator: Operator, literal: LiteralView },
    And(Box<ExprView>, Box<ExprView>),
    Or(Box<ExprView>, Box<ExprView>),
    Not(Box<ExprView>),
}

impl View for Literal {
    type V = LiteralView;

    open spec fn view(&self) -> LiteralView {
        match *self {
            Literal::Text(s) => LiteralView::Text(s@),
            Literal::DateKeyword(s) => LiteralView::DateKeyword(s@),
        }
    }
}

/// The value of an expression tree, node by node.
pub open spec fn expr_view(e: Expression) -> ExprView
    decreases e,
{
    match e {
        Expression::Comparison { field, operator, literal } => ExprView::Comparison {
            field,
            operator,
            literal: literal@,
        },
        Expression::And(a, b) => ExprView::And(Box::new(expr_view(*a)), Box::new(expr_view(*b))),
        Expression::Or(a, b) => ExprView::Or(Box::new(expr_view(*a)), Box::new(expr_view(*b))),
        Expression::Not(a) => ExprView::Not(Box::new(expr_view(*a))),
    }
}

impl View for Expression {
    type V = ExprView;

    open spec fn view(&self) -> ExprView {
        expr_view(*self)
    }
}

impl LiteralView {
    /// The text of the literal, as written.
    pub open spec fn text(self) -> Seq<char> {
        match self {
            LiteralView::Text(s) => s,
            LiteralView::DateKeyword(s) => s,
        }
    }
}

/// Whether `operator` may be applied to `field`.
///
/// Every field but `tags` can be tested for equality. Only `due` is ordered.
/// The fields that hold text take `LIKE`; `CONTAINS` is for the set of tags
/// and for the free texts `name` and `notes`. `IS NULL` is for the fields that
/// can be absent, and for `tags`, where it asks for the empty set.
pub open spec fn operator_applies(field: Field, operator: Operator) -> bool {
    match operator {
        Operator::Equals | Operator::NotEquals => field != Field::Tags,
        Operator::LessThan | Operator::GreaterThan => field == Field::Due,
        Operator::Like => field != Field::Due && field != Field::Tags,
        Operator::Contains => field == Field::Tags || field == Field::Name || field == Field::Notes,
        Operator::IsNull => field == Field::Due || field == Field::Tags || field == Field::Project
            || field == Field::Area,
    }
}

/// The field that the word `name` refers to, ignoring ASCII case.
pub open spec fn field_named(name: Seq<char>) -> Option<Field> {
    let f = fold(name);
    if f == "status"@ {
        Some(Field::Status)
    } else if f == "due"@ {
        Some(Field::Due)
    } else if f == "tags"@ {
        Some(Field::Tags)
    } else if f == "project"@ {
        Some(Field::Project)
    } else if f == "area"@ {
        Some(Field::Area)
    } else if f == "name"@ {
        Some(Field::Name)
    } else if f == "notes"@ {
        Some(Field::Notes)
    } else {
        None
    }
}

impl Field {
    /// Whether `operator` may be applied to this field.
    pub fn accepts(self, operator: Operator) -> (r: bool)
        ensures
            r == operator_applies(self, operator),
    {
        match operator {
            Operator::Equals | Operator::NotEquals => !matches!(self, Field::Tags),
            Operator::LessThan | Operator::GreaterThan => matches!(self, Field::Due),
            Operator::Like => !matches!(self, Field::Due) && !matches!(self, Field::Tags),
            Operator::Contains => matches!(self, Field::Tags) || matches!(self, Field::Name)
                || matches!(self, Field::Notes),
            Operator::IsNull => matches!(self, Field::Due) || matches!(self, Field::Tags)
                || matches!(self, Field::Project) || matches!(self, Field::Area),
        }
    }
}

} // verus!
