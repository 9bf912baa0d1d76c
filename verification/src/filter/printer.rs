//! The canonical text of an expression.
//!
//! Every operand of `NOT`, `AND` and `OR` is written in parentheses, fields in
//! small letters, keywords in capitals, and text literals in quotes:
//!
//! ```text
//! (status = 'open') AND (NOT (due IS NULL))
//! ```

use crate::filter::ast::{ExprView, Expression, Literal, LiteralView, operator_applies};
use crate::filter::engine::{field_text, operator_text};
use crate::filter::lexer::{is_date_word, is_word_char, is_word_start};
use crate::filter::token::{Field, Operator};
use crate::text::{chars_of, text_is};
use vstd::prelude::*;
use vstd::string::*;

verus! {

/// Whether `s` is a bare word: it starts as a word starts and holds word
/// characters only.
pub open spec fn is_word(s: Seq<char>) -> bool {
    s.len() > 0 && is_word_start(s[0]) && forall|i: int| 0 <= i < s.len() ==> is_word_char(
        #[trigger] s[i],
    )
}

/// The quote in which the text `s` can be written: one that `s` does not
/// hold itself. A text that holds both quotes cannot be written.
pub open spec fn quote_for(s: Seq<char>) -> Option<char> {
    if !s.contains('\'') {
        Some('\'')
    } else if !s.contains('"') {
        Some('"')
    } else {
        None
    }
}

/// Whether the literal can be written so that it reads back as itself.
pub open spec fn printable_literal(l: LiteralView) -> bool {
    match l {
        LiteralView::Text(s) => quote_for(s) is Some,
        LiteralView::DateKeyword(s) => is_word(s) && is_date_word(s),
    }
}

/// Whether the expression can be written so that it reads back as itself:
/// every operator suits its field, `IS NULL` carries the empty text, and every
/// other literal can be written.
pub open spec fn printable(e: ExprView) -> bool
    decreases e,
{
    match e {
        ExprView::Comparison { field, operator, literal } => operator_applies(field, operator) && (
        if operator == Operator::IsNull {
            literal == LiteralView::Text(Seq::empty())
        } else {
            printable_literal(literal)
        }),
        ExprView::And(a, b) => printable(*a) && printable(*b),
        ExprView::Or(a, b) => printable(*a) && printable(*b),
        ExprView::Not(a) => printable(*a),
    }
}

/// The way a literal is written.
pub open spec fn literal_text(l: LiteralView) -> Seq<char> {
    match l {
        LiteralView::Text(s) => seq![quote_for(s)->0] + s + seq![quote_for(s)->0],
        LiteralView::DateKeyword(s) => s,
    }
}

/// The way a comparison is written.
pub open spec fn comparison_text(field: Field, operator: Operator, literal: LiteralView) -> Seq<
    char,
> {
    if operator == Operator::IsNull {
        field_text(field) + seq![' '] + operator_text(operator)
    } else {
        field_text(field) + seq![' '] + operator_text(operator) + seq![' '] + literal_text(literal)
    }
}

/// The canonical text of an expression.
pub open spec fn canonical_text(e: ExprView) -> Seq<char>
    decreases e,
{
    match e {
        ExprView::Comparison { field, operator, literal } => comparison_text(
            field,
            operator,
            literal,
        ),
        ExprView::And(a, b) => seq!['('] + canonical_text(*a) + ") AND ("@ + canonical_text(*b)
            + seq![')'],
        ExprView::Or(a, b) => seq!['('] + canonical_text(*a) + ") OR ("@ + canonical_text(*b)
            + seq![')'],
        ExprView::Not(a) => "NOT ("@ + canonical_text(*a) + seq![')'],
    }
}

fn has_char(chars: &Vec<char>, c: char) -> (r: bool)
    ensures
        r == chars@.contains(c),
{
    let mut i: usize = 0;
    while i < chars.len()
        invariant
            i <= chars.len(),
            forall|k: int| 0 <= k < i ==> chars@[k] != c,
        decreases chars.len() - i,
    {
        if chars[i] == c {
            return true;
        }
        i += 1;
    }
    false
}

fn word_shaped(chars: &Vec<char>) -> (r: bool)
    ensures
        r == is_word(chars@),
{
    if chars.len() == 0 {
        return false;
    }
    let first = chars[0];
    if !(('a' <= first && first <= 'z') || ('A' <= first && first <= 'Z') || ('0' <= first && first
        <= '9') || first == '_') {
        return false;
    }
    let mut i: usize = 0;
    while i < chars.len()
        invariant
            i <= chars.len(),
            forall|k: int| 0 <= k < i ==> is_word_char(#[trigger] chars@[k]),
        decreases chars.len() - i,
    {
        let c = chars[i];
        if !(('a' <= c && c <= 'z') || ('A' <= c && c <= 'Z') || ('0' <= c && c <= '9') || c == '_'
            || c == '-') {
            return false;
        }
        i += 1;
    }
    true
}

fn names_date(chars: &Vec<char>) -> (r: bool)
    ensures
        r == is_date_word(chars@),
{
    if chars.len() == 0 {
        return false;
    }
    let first = chars[0];
    ('0' <= first && first <= '9') || text_is(chars, "today") || text_is(chars, "tomorrow")
}

/// Appends the way `literal` is written to `out`, if it can be written.
fn write_literal(literal: &Literal, out: &mut String) -> (ok: bool)
    ensures
        ok == printable_literal(literal@),
        ok ==> final(out)@ == old(out)@ + literal_text(literal@),
{
    match literal {
        Literal::Text(s) => {
            let chars = chars_of(s.as_str());
            proof {
                reveal_strlit("'");
                reveal_strlit("\"");
            }
            let quote = if !has_char(&chars, '\'') {
                "'"
            } else if !has_char(&chars, '"') {
                "\""
            } else {
                return false;
            };
            out.append(quote);
            out.append(s.as_str());
            out.append(quote);
            proof {
                assert(quote@ =~= seq![quote_for(s@)->0]);
                assert(final(out)@ =~= old(out)@ + literal_text(literal@));
            }
            true
        },
        Literal::DateKeyword(s) => {
            let chars = chars_of(s.as_str());
            if word_shaped(&chars) && names_date(&chars) {
                out.append(s.as_str());
                true
            } else {
                false
            }
        },
    }
}

fn write_field(field: Field, out: &mut String)
    ensures
        final(out)@ == old(out)@ + field_text(field),
{
    let name = match field {
        Field::Status => "status",
        Field::Due => "due",
        Field::Tags => "tags",
        Field::Project => "project",
        Field::Area => "area",
        Field::Name => "name",
        Field::Notes => "notes",
    };
    out.append(name);
}

fn write_operator(operator: Operator, out: &mut String)
    ensures
        final(out)@ == old(out)@ + operator_text(operator),
{
    let name = match operator {
        Operator::Equals => "=",
        Operator::NotEquals => "!=",
        Operator::LessThan => "<",
        Operator::GreaterThan => ">",
        Operator::Like => "LIKE",
        Operator::Contains => "CONTAINS",
        Operator::IsNull => "IS NULL",
    };
    out.append(name);
}

/// Appends the canonical text of `e` to `out`, if `e` is printable.
fn write_expression(e: &Expression, out: &mut String) -> (ok: bool)
    ensures
        ok == printable(e@),
        ok ==> final(out)@ == old(out)@ + canonical_text(e@),
    decreases e,
{
    proof {
        reveal_strlit(" ");
        reveal_strlit("(");
        reveal_strlit(")");
    }
    match e {
        Expression::Comparison { field, operator, literal } => {
            if !field.accepts(*operator) {
                return false;
            }
            if matches!(operator, Operator::IsNull) {
                let empty = match literal {
                    Literal::Text(s) => s.as_str().is_empty(),
                    Literal::DateKeyword(_) => false,
                };
                if !empty {
                    proof {
                        if literal@ is Text {
                            assert(literal@->Text_0.len() != 0);
                        }
                    }
                    return false;
                }
                assert(literal@->Text_0 =~= Seq::<char>::empty());
                write_field(*field, out);
                out.append(" ");
                write_operator(*operator, out);
                proof {
                    assert(final(out)@ =~= old(out)@ + canonical_text(e@));
                }
                true
            } else {
                write_field(*field, out);
                out.append(" ");
                write_operator(*operator, out);
                out.append(" ");
                let ok = write_literal(literal, out);
                proof {
                    if ok {
                        assert(final(out)@ =~= old(out)@ + canonical_text(e@));
                    }
                }
                ok
            }
        },
        Expression::And(a, b) => {
            out.append("(");
            if !write_expression(a, out) {
                return false;
            }
            out.append(") AND (");
            if !write_expression(b, out) {
                return false;
            }
            out.append(")");
            proof {
                assert(final(out)@ =~= old(out)@ + canonical_text(e@));
            }
            true
        },
        Expression::Or(a, b) => {
            out.append("(");
            if !write_expression(a, out) {
                return false;
            }
            out.append(") OR (");
            if !write_expression(b, out) {
                return false;
            }
            out.append(")");
            proof {
                assert(final(out)@ =~= old(out)@ + canonical_text(e@));
            }
            true
        },
        Expression::Not(a) => {
            out.append("NOT (");
            if !write_expression(a, out) {
                return false;
            }
            out.append(")");
            proof {
                assert(final(out)@ =~= old(out)@ + canonical_text(e@));
            }
            true
        },
    }
}

impl Expression {
    /// The canonical text of this expression, which `parse_filter` reads
    /// back as this expression; `None` where the expression is not printable.
    pub fn to_canonical_string(&self) -> (r: Option<String>)
        ensures
            match r {
                Some(text) => printable(self@) && text@ == canonical_text(self@),
                None => !printable(self@),
            },
    {
        let mut out = String::new();
        if write_expression(self, &mut out) {
            assert(out@ =~= canonical_text(self@));
            Some(out)
        } else {
            None
        }
    }
}

} // verus!
