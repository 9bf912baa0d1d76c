//! Writing an expression and reading it back gives the expression again.

use crate::filter::ast::{ExprView, LiteralView, field_named};
use crate::filter::engine::{FilterCauseView, field_text, operator_text, parse_text};
use crate::filter::lexer::{
    LexFault,
    Lexeme,
    Scan,
    classify,
    is_date_word,
    is_space,
    is_word_char,
    is_word_start,
    lemma_quote_end,
    lemma_scan_advances,
    lemma_skip_spaces,
    lemma_word_end,
    lex,
    quote_end,
    scan_all,
    scan_one,
    skip_spaces,
    word_end,
};
use crate::filter::parser::{
    ParseFault,
    Parsed,
    advancing,
    kind_at,
    kinds,
    lemma_parse_advances,
    parse_and,
    parse_and_rest,
    parse_comparison,
    parse_kinds,
    parse_not,
    parse_or,
    parse_or_rest,
};
use crate::filter::printer::{
    canonical_text,
    comparison_text,
    is_word,
    literal_text,
    printable,
    quote_for,
};
use crate::filter::scanning::{
    followed_by,
    has_at,
    kinds_from,
    lemma_classify_keywords,
    lemma_followed_twice,
    lemma_has_at_parts,
    lemma_one_space,
    lemma_scan_end,
    lemma_scan_field,
    lemma_scan_literal,
    lemma_scan_operator,
    lemma_scan_plain_word,
    lemma_scan_step,
    literal_token,
    word_stops,
};
use crate::filter::token::{Field, Logical, Operator, TokenKindView};
use crate::filter::words::{lemma_capital_keywords, lemma_field_words, lemma_fold_of_small};
use crate::text::fold;
use vstd::prelude::*;

verus! {

/// The tokens of the canonical text of an expression, without the final `Eof`.
pub open spec fn to_tokens(e: ExprView) -> Seq<TokenKindView>
    decreases e,
{
    match e {
        ExprView::Comparison { field, operator, literal } => if operator == Operator::IsNull {
            seq![TokenKindView::Identifier(field_text(field)), TokenKindView::Operator(operator)]
        } else {
            seq![
                TokenKindView::Identifier(field_text(field)),
                TokenKindView::Operator(operator),
                literal_token(literal),
            ]
        },
        ExprView::And(a, b) => seq![TokenKindView::LParen] + to_tokens(*a) + seq![
            TokenKindView::RParen,
            TokenKindView::LogicalKeyword(Logical::And),
            TokenKindView::LParen,
        ] + to_tokens(*b) + seq![TokenKindView::RParen],
        ExprView::Or(a, b) => seq![TokenKindView::LParen] + to_tokens(*a) + seq![
            TokenKindView::RParen,
            TokenKindView::LogicalKeyword(Logical::Or),
            TokenKindView::LParen,
        ] + to_tokens(*b) + seq![TokenKindView::RParen],
        ExprView::Not(a) => seq![
            TokenKindView::LogicalKeyword(Logical::Not),
            TokenKindView::LParen,
        ] + to_tokens(*a) + seq![TokenKindView::RParen],
    }
}

/// Whether the run `ts` stands in `ks` from position `p` on.
pub open spec fn run_at(ks: Seq<TokenKindView>, p: int, ts: Seq<TokenKindView>) -> bool {
    0 <= p && p + ts.len() <= ks.len() && forall|k: int|
        0 <= k < ts.len() ==> ks[p + k] == #[trigger] ts[k]
}

/// Whether the token `k` can follow a complete operand: it closes a group or
/// ends the input.
pub open spec fn closes(k: TokenKindView) -> bool {
    k is RParen || k is Eof
}

/// The name of a field is read back as that field.
pub proof fn lemma_field_name_reads_back(field: Field)
    ensures
        field_named(field_text(field)) == Some(field),
{
    lemma_field_words();
    lemma_fold_of_small(field_text(field));
}

/// The tokens of an expression are at least two.
pub proof fn lemma_to_tokens_len(e: ExprView)
    ensures
        to_tokens(e).len() >= 2,
    decreases e,
{
    match e {
        ExprView::Comparison { .. } => {},
        ExprView::And(a, b) => {
            lemma_to_tokens_len(*a);
            lemma_to_tokens_len(*b);
        },
        ExprView::Or(a, b) => {
            lemma_to_tokens_len(*a);
            lemma_to_tokens_len(*b);
        },
        ExprView::Not(a) => {
            lemma_to_tokens_len(*a);
        },
    }
}

/// A group `( e )` that stands at position `p` is read as `e`.
proof fn lemma_parse_group(ks: Seq<TokenKindView>, p: int, e: ExprView)
    requires
        printable(e),
        0 <= p < ks.len(),
        ks[p] is LParen,
        run_at(ks, p + 1, to_tokens(e)),
        kind_at(ks, p + 1 + to_tokens(e).len()) is RParen,
    ensures
        parse_not(ks, p) == Ok::<Parsed, ParseFault>(
            Parsed { expr: e, next: p + 2 + to_tokens(e).len() },
        ),
    decreases e, 2int,
{
    lemma_parse_tokens_of(ks, p + 1, e);
}

/// The tokens of a printable expression, standing at position `p` and
/// followed by the end of a group or of the input, are read as that
/// expression.
pub proof fn lemma_parse_tokens_of(ks: Seq<TokenKindView>, p: int, e: ExprView)
    requires
        printable(e),
        run_at(ks, p, to_tokens(e)),
        closes(kind_at(ks, p + to_tokens(e).len())),
    ensures
        parse_or(ks, p) == Ok::<Parsed, ParseFault>(
            Parsed { expr: e, next: p + to_tokens(e).len() },
        ),
    decreases e, 1int,
{
    let ts = to_tokens(e);
    let n = ts.len() as int;
    let len = ks.len() as int;
    lemma_to_tokens_len(e);
    lemma_parse_advances(ks, p);
    match e {
        ExprView::Comparison { field, operator, literal } => {
            lemma_field_name_reads_back(field);
            assert(ks[p + 0] == ts[0]);
            assert(ks[p + 1] == ts[1]);
            if operator != Operator::IsNull {
                assert(ks[p + 2] == ts[2]);
            }
            let want = Parsed { expr: e, next: p + n };
            assert(parse_comparison(ks, p) == Ok::<Parsed, ParseFault>(want));
            assert(parse_not(ks, p) == Ok::<Parsed, ParseFault>(want));
            assert(parse_and(ks, p) == Ok::<Parsed, ParseFault>(want));
        },
        ExprView::Not(a) => {
            let ta = to_tokens(*a);
            let la = ta.len() as int;
            assert(ks[p + 0] == ts[0]);
            assert(ks[p + 1] == ts[1]);
            assert(ks[p + (2 + la)] == ts[2 + la]);
            assert forall|k: int| 0 <= k < la implies ks[p + 2 + k] == #[trigger] ta[k] by {
                assert(ks[p + (2 + k)] == ts[2 + k]);
            }
            lemma_parse_group(ks, p + 1, *a);
            let want = Parsed { expr: e, next: p + n };
            assert(parse_not(ks, p) == Ok::<Parsed, ParseFault>(want));
            assert(parse_and(ks, p) == Ok::<Parsed, ParseFault>(want));
        },
        ExprView::And(a, b) => {
            let ta = to_tokens(*a);
            let tb = to_tokens(*b);
            let la = ta.len() as int;
            let lb = tb.len() as int;
            assert(n == la + lb + 5);
            assert(ks[p + 0] == ts[0]);
            assert(ks[p + (1 + la)] == ts[1 + la]);
            assert(ks[p + (2 + la)] == ts[2 + la]);
            assert(ks[p + (3 + la)] == ts[3 + la]);
            assert(ks[p + (4 + la + lb)] == ts[4 + la + lb]);
            assert forall|k: int| 0 <= k < la implies ks[p + 1 + k] == #[trigger] ta[k] by {
                assert(ks[p + (1 + k)] == ts[1 + k]);
            }
            assert forall|k: int| 0 <= k < lb implies ks[p + 4 + la + k] == #[trigger] tb[k] by {
                assert(ks[p + (4 + la + k)] == ts[4 + la + k]);
            }
            lemma_parse_group(ks, p, *a);
            lemma_parse_group(ks, p + 3 + la, *b);
            let first = Parsed { expr: *a, next: p + 2 + la };
            let second = Parsed { expr: *b, next: p + n };
            assert(parse_not(ks, p) == Ok::<Parsed, ParseFault>(first));
            assert(parse_not(ks, p + 3 + la) == Ok::<Parsed, ParseFault>(second));
            assert(advancing(parse_not(ks, p + 3 + la), p + 3 + la, len) == parse_not(
                ks,
                p + 3 + la,
            ));
            assert(parse_and_rest(ks, e, p + n) == Ok::<Parsed, ParseFault>(
                Parsed { expr: e, next: p + n },
            ));
            assert(parse_and_rest(ks, *a, p + 2 + la) == parse_and_rest(ks, e, p + n));
            assert(parse_and(ks, p) == Ok::<Parsed, ParseFault>(Parsed { expr: e, next: p + n }));
        },
        ExprView::Or(a, b) => {
            let ta = to_tokens(*a);
            let tb = to_tokens(*b);
            let la = ta.len() as int;
            let lb = tb.len() as int;
            assert(n == la + lb + 5);
            assert(ks[p + 0] == ts[0]);
            assert(ks[p + (1 + la)] == ts[1 + la]);
            assert(ks[p + (2 + la)] == ts[2 + la]);
            assert(ks[p + (3 + la)] == ts[3 + la]);
            assert(ks[p + (4 + la + lb)] == ts[4 + la + lb]);
            assert forall|k: int| 0 <= k < la implies ks[p + 1 + k] == #[trigger] ta[k] by {
                assert(ks[p + (1 + k)] == ts[1 + k]);
            }
            assert forall|k: int| 0 <= k < lb implies ks[p + 4 + la + k] == #[trigger] tb[k] by {
                assert(ks[p + (4 + la + k)] == ts[4 + la + k]);
            }
            lemma_parse_group(ks, p, *a);
            lemma_parse_group(ks, p + 3 + la, *b);
            lemma_parse_advances(ks, p + 3 + la);
            let first = Parsed { expr: *a, next: p + 2 + la };
            let second = Parsed { expr: *b, next: p + n };
            assert(parse_not(ks, p) == Ok::<Parsed, ParseFault>(first));
            assert(parse_and_rest(ks, *a, p + 2 + la) == Ok::<Parsed, ParseFault>(first));
            assert(parse_and(ks, p) == Ok::<Parsed, ParseFault>(first));
            assert(parse_not(ks, p + 3 + la) == Ok::<Parsed, ParseFault>(second));
            assert(parse_and_rest(ks, *b, p + n) == Ok::<Parsed, ParseFault>(second));
            assert(parse_and(ks, p + 3 + la) == Ok::<Parsed, ParseFault>(second));
            assert(parse_or_rest(ks, e, p + n) == Ok::<Parsed, ParseFault>(
                Parsed { expr: e, next: p + n },
            ));
            assert(parse_or_rest(ks, *a, p + 2 + la) == parse_or_rest(ks, e, p + n));
        },
    }
}

/// The tokens of a printable expression, followed by `Eof`, are read as that
/// expression.
pub proof fn lemma_tokens_read_back(e: ExprView)
    requires
        printable(e),
    ensures
        parse_kinds(to_tokens(e).push(TokenKindView::Eof)) == Ok::<ExprView, ParseFault>(e),
{
    let ks = to_tokens(e).push(TokenKindView::Eof);
    lemma_parse_tokens_of(ks, 0, e);
}

/// The text of a comparison is scanned as the tokens of the comparison.
proof fn lemma_scan_comparison(
    t: Seq<char>,
    i: int,
    field: Field,
    operator: Operator,
    literal: LiteralView,
)
    requires
        printable(ExprView::Comparison { field, operator, literal }),
        has_at(t, i, comparison_text(field, operator, literal)),
        word_stops(t, i + comparison_text(field, operator, literal).len()),
    ensures
        kinds_from(t, i) == followed_by(
            to_tokens(ExprView::Comparison { field, operator, literal }),
            kinds_from(t, i + comparison_text(field, operator, literal).len()),
        ),
        !is_space(t[i]),
        0 <= i < t.len(),
{
    let e = ExprView::Comparison { field, operator, literal };
    let f = field_text(field);
    let o = operator_text(operator);
    let sp = seq![' '];
    let lf = f.len() as int;
    let lo = o.len() as int;
    let op_at = i + lf + 1;
    let k0 = TokenKindView::Identifier(f);
    let k1 = TokenKindView::Operator(operator);
    lemma_capital_keywords();
    if operator == Operator::IsNull {
        lemma_has_at_parts(t, i, f + sp, o);
        lemma_has_at_parts(t, i, f, sp);
        assert(t[i + lf + 0] == sp[0]);
        lemma_scan_field(t, i, field);
        lemma_scan_operator(t, op_at, operator);
        lemma_one_space(t, i + lf);
        lemma_scan_step(t, i, i, k0, i + lf);
        lemma_scan_step(t, i + lf, op_at, k1, op_at + lo);
        let rest = kinds_from(t, op_at + lo);
        lemma_followed_twice(seq![k0], seq![k1], rest);
        assert(seq![k0] + seq![k1] =~= to_tokens(e));
    } else {
        let l = literal_text(literal);
        let ll = l.len() as int;
        let lit_at = op_at + lo + 1;
        let k2 = literal_token(literal);
        lemma_has_at_parts(t, i, f + sp + o + sp, l);
        lemma_has_at_parts(t, i, f + sp + o, sp);
        lemma_has_at_parts(t, i, f + sp, o);
        lemma_has_at_parts(t, i, f, sp);
        assert((f + sp + o).len() == lf + 1 + lo);
        assert((f + sp + o + sp).len() == lf + 1 + lo + 1);
        assert(t[i + lf + 0] == sp[0]);
        assert(t[i + (lf + 1 + lo) + 0] == sp[0]);
        lemma_scan_field(t, i, field);
        lemma_scan_operator(t, op_at, operator);
        lemma_scan_literal(t, lit_at, literal);
        lemma_one_space(t, i + lf);
        lemma_one_space(t, op_at + lo);
        lemma_scan_step(t, i, i, k0, i + lf);
        lemma_scan_step(t, i + lf, op_at, k1, op_at + lo);
        lemma_scan_step(t, op_at + lo, lit_at, k2, lit_at + ll);
        let rest = kinds_from(t, lit_at + ll);
        lemma_followed_twice(seq![k1], seq![k2], rest);
        lemma_followed_twice(seq![k0], seq![k1] + seq![k2], rest);
        assert(seq![k0] + (seq![k1] + seq![k2]) =~= to_tokens(e));
    }
}

/// The text `( A )`, with `A` the canonical text of `e`, is scanned as a
/// group around the tokens of `e`.
proof fn lemma_scan_group(t: Seq<char>, i: int, e: ExprView)
    requires
        printable(e),
        0 <= i < t.len(),
        t[i] == '(',
        has_at(t, i + 1, canonical_text(e)),
        i + 1 + canonical_text(e).len() < t.len(),
        t[i + 1 + canonical_text(e).len()] == ')',
    ensures
        kinds_from(t, i) == followed_by(
            seq![TokenKindView::LParen] + to_tokens(e) + seq![TokenKindView::RParen],
            kinds_from(t, i + 2 + canonical_text(e).len()),
        ),
    decreases e, 2int,
{
    let n = canonical_text(e).len() as int;
    let c = i + 1 + n;
    lemma_scan_expr(t, i + 1, e);
    lemma_scan_step(t, i, i, TokenKindView::LParen, i + 1);
    lemma_scan_step(t, c, c, TokenKindView::RParen, c + 1);
    let rest = kinds_from(t, c + 1);
    lemma_followed_twice(to_tokens(e), seq![TokenKindView::RParen], rest);
    lemma_followed_twice(
        seq![TokenKindView::LParen],
        to_tokens(e) + seq![TokenKindView::RParen],
        rest,
    );
    assert(seq![TokenKindView::LParen] + (to_tokens(e) + seq![TokenKindView::RParen]) =~= seq![
        TokenKindView::LParen,
    ] + to_tokens(e) + seq![TokenKindView::RParen]);
}

/// The text of a negation is scanned as the tokens of the negation.
proof fn lemma_scan_not(t: Seq<char>, i: int, e: ExprView)
    requires
        e is Not,
        printable(e),
        has_at(t, i, canonical_text(e)),
    ensures
        kinds_from(t, i) == followed_by(
            to_tokens(e),
            kinds_from(t, i + canonical_text(e).len()),
        ),
        !is_space(t[i]),
        0 <= i < t.len(),
    decreases e, 0int,
{
    lemma_capital_keywords();
    lemma_classify_keywords();
    let a = e->Not_0;
    let rp = seq![')'];
    let head = "NOT ("@;
    let ta = canonical_text(*a);
    let la = ta.len() as int;
    lemma_has_at_parts(t, i, head + ta, rp);
    lemma_has_at_parts(t, i, head, ta);
    assert(t[i + 0] == head[0]);
    assert(t[i + 1] == head[1]);
    assert(t[i + 2] == head[2]);
    assert(t[i + 3] == head[3]);
    assert(t[i + 4] == head[4]);
    assert(t[i + (5 + la) + 0] == rp[0]);
    let word = seq!['N', 'O', 'T'];
    assert(has_at(t, i, word)) by {
        assert forall|k: int| 0 <= k < word.len() implies t[i + k] == #[trigger] word[k] by {
            assert(head[k] == word[k]);
        }
    }
    lemma_scan_plain_word(t, i, word);
    lemma_one_space(t, i + 3);
    lemma_scan_step(t, i, i, TokenKindView::LogicalKeyword(Logical::Not), i + 3);
    lemma_scan_group(t, i + 4, *a);
    let rest = kinds_from(t, i + 6 + la);
    let group = seq![TokenKindView::LParen] + to_tokens(*a) + seq![TokenKindView::RParen];
    assert(kinds_from(t, i + 3) == kinds_from(t, i + 4));
    lemma_followed_twice(seq![TokenKindView::LogicalKeyword(Logical::Not)], group, rest);
    assert(seq![TokenKindView::LogicalKeyword(Logical::Not)] + group =~= to_tokens(e));
}

/// The word between two groups, spaces included, is scanned as the
/// connective that it writes.
proof fn lemma_scan_connective(t: Seq<char>, c: int, word: Seq<char>, kind: TokenKindView)
    requires
        0 <= c,
        c + word.len() + 2 < t.len(),
        t[c] == ' ',
        has_at(t, c + 1, word),
        t[c + 1 + word.len()] == ' ',
        t[c + 2 + word.len()] == '(',
        is_word(word),
        fold(word) != "is"@,
        classify(word) == kind,
    ensures
        kinds_from(t, c) == followed_by(seq![kind], kinds_from(t, c + 2 + word.len())),
{
    let n = word.len() as int;
    assert(t[c + 1 + 0] == word[0]);
    lemma_one_space(t, c);
    lemma_scan_plain_word(t, c + 1, word);
    lemma_scan_step(t, c, c + 1, kind, c + 1 + n);
    lemma_one_space(t, c + 1 + n);
    assert(kinds_from(t, c + 1 + n) == kinds_from(t, c + 2 + n));
}

/// The left operand of a conjunction or disjunction.
pub open spec fn left_of(e: ExprView) -> ExprView {
    if e is And {
        *e->And_0
    } else {
        *e->Or_0
    }
}

/// The right operand of a conjunction or disjunction.
pub open spec fn right_of(e: ExprView) -> ExprView {
    if e is And {
        *e->And_1
    } else {
        *e->Or_1
    }
}

/// Two groups with a connective between them are scanned group by group.
proof fn lemma_scan_pair(t: Seq<char>, i: int, e: ExprView, word: Seq<char>, kind: TokenKindView)
    requires
        e is And || e is Or,
        printable(e),
        is_word(word),
        fold(word) != "is"@,
        classify(word) == kind,
        has_at(
            t,
            i,
            seq!['('] + canonical_text(left_of(e)) + (seq![')', ' '] + word + seq![' ', '('])
                + canonical_text(right_of(e)) + seq![')'],
        ),
    ensures
        kinds_from(t, i) == followed_by(
            seq![TokenKindView::LParen] + to_tokens(left_of(e)) + seq![
                TokenKindView::RParen,
                kind,
                TokenKindView::LParen,
            ] + to_tokens(right_of(e)) + seq![TokenKindView::RParen],
            kinds_from(
                t,
                i + canonical_text(left_of(e)).len() + canonical_text(right_of(e)).len()
                    + word.len() + 6,
            ),
        ),
        !is_space(t[i]),
        0 <= i < t.len(),
    decreases e, 0int,
{
    let a = left_of(e);
    let b = right_of(e);
    let lp = seq!['('];
    let rp = seq![')'];
    let mid = seq![')', ' '] + word + seq![' ', '('];
    let ta = canonical_text(a);
    let tb = canonical_text(b);
    let la = ta.len() as int;
    let lb = tb.len() as int;
    let lw = word.len() as int;
    lemma_has_at_parts(t, i, lp + ta + mid + tb, rp);
    lemma_has_at_parts(t, i, lp + ta + mid, tb);
    lemma_has_at_parts(t, i, lp + ta, mid);
    lemma_has_at_parts(t, i, lp, ta);
    lemma_has_at_parts(t, i + 1 + la, seq![')', ' '] + word, seq![' ', '(']);
    lemma_has_at_parts(t, i + 1 + la, seq![')', ' '], word);
    let c1 = i + 1 + la;
    let c2 = c1 + lw + 4 + lb;
    assert(t[i + 0] == lp[0]);
    assert(t[c1 + 0] == seq![')', ' '][0]);
    assert(t[c1 + 1] == seq![')', ' '][1]);
    assert(t[c1 + 2 + lw + 0] == seq![' ', '('][0]);
    assert(t[c1 + 2 + lw + 1] == seq![' ', '('][1]);
    assert(t[c2 + 0] == rp[0]);
    lemma_scan_group(t, i, a);
    lemma_scan_connective(t, c1 + 1, word, kind);
    lemma_scan_group(t, c1 + 3 + lw, b);
    let rest = kinds_from(t, c2 + 1);
    let ga = seq![TokenKindView::LParen] + to_tokens(a) + seq![TokenKindView::RParen];
    let gb = seq![TokenKindView::LParen] + to_tokens(b) + seq![TokenKindView::RParen];
    let op = seq![kind];
    lemma_followed_twice(op, gb, rest);
    lemma_followed_twice(ga, op + gb, rest);
    assert(ga + (op + gb) =~= seq![TokenKindView::LParen] + to_tokens(a) + seq![
        TokenKindView::RParen,
        kind,
        TokenKindView::LParen,
    ] + to_tokens(b) + seq![TokenKindView::RParen]);
}

/// The canonical text of a printable expression, standing at position `i`
/// and not run together with a word after it, is scanned as the tokens of
/// the expression.
pub proof fn lemma_scan_expr(t: Seq<char>, i: int, e: ExprView)
    requires
        printable(e),
        has_at(t, i, canonical_text(e)),
        word_stops(t, i + canonical_text(e).len()),
    ensures
        kinds_from(t, i) == followed_by(
            to_tokens(e),
            kinds_from(t, i + canonical_text(e).len()),
        ),
        !is_space(t[i]),
        0 <= i < t.len(),
    decreases e, 1int,
{
    match e {
        ExprView::Comparison { field, operator, literal } => {
            lemma_scan_comparison(t, i, field, operator, literal);
        },
        ExprView::Not(a) => {
            lemma_scan_not(t, i, e);
        },
        ExprView::And(a, b) => {
            lemma_capital_keywords();
            lemma_classify_keywords();
            let word = seq!['A', 'N', 'D'];
            assert(") AND ("@ =~= seq![')', ' '] + word + seq![' ', '(']);
            lemma_scan_pair(t, i, e, word, TokenKindView::LogicalKeyword(Logical::And));
        },
        ExprView::Or(a, b) => {
            lemma_capital_keywords();
            lemma_classify_keywords();
            let word = seq!['O', 'R'];
            assert(") OR ("@ =~= seq![')', ' '] + word + seq![' ', '(']);
            lemma_scan_pair(t, i, e, word, TokenKindView::LogicalKeyword(Logical::Or));
        },
    }
}

/// The canonical text of a printable expression is scanned as the tokens of
/// the expression, followed by `Eof`.
pub proof fn lemma_text_scans(e: ExprView)
    requires
        printable(e),
    ensures
        kinds_from(canonical_text(e), 0) == Some(to_tokens(e).push(TokenKindView::Eof)),
{
    let t = canonical_text(e);
    lemma_scan_expr(t, 0, e);
    lemma_scan_end(t, t.len() as int);
    assert(to_tokens(e) + seq![TokenKindView::Eof] =~= to_tokens(e).push(TokenKindView::Eof));
}

/// Whether the text of a token can be written as a literal that reads back
/// as itself. Every token that the tokenizer makes can.
pub open spec fn token_writable(k: TokenKindView) -> bool {
    match k {
        TokenKindView::StringLiteral(s) => quote_for(s) is Some,
        TokenKindView::Identifier(s) => quote_for(s) is Some,
        TokenKindView::DateLiteral(s) => is_word(s) && is_date_word(s),
        _ => true,
    }
}

/// Whether every token of the run is writable.
pub open spec fn all_writable(ks: Seq<TokenKindView>) -> bool {
    forall|k: int| 0 <= k < ks.len() ==> token_writable(#[trigger] ks[k])
}

/// A token that the tokenizer makes is writable.
proof fn lemma_scanned_is_writable(t: Seq<char>, j: int)
    requires
        0 <= j < t.len(),
    ensures
        scan_one(t, j) matches Scan::Token { kind, .. } ==> token_writable(kind),
{
    let c = t[j];
    if c == '\'' || c == '"' {
        let e = quote_end(t, j + 1, c);
        lemma_quote_end(t, j + 1, c);
        if e < t.len() {
            let s = t.subrange(j + 1, e);
            assert forall|k: int| 0 <= k < s.len() implies s[k] != c by {
                assert(s[k] == t[j + 1 + k]);
            }
            assert(!s.contains(c));
        }
    } else if is_word_start(c) {
        let e = word_end(t, j);
        lemma_word_end(t, j);
        lemma_word_end(t, j + 1);
        let w = t.subrange(j, e);
        assert(w[0] == t[j]);
        assert forall|k: int| 0 <= k < w.len() implies is_word_char(#[trigger] w[k]) by {
            assert(w[k] == t[j + k]);
        }
        assert forall|k: int| 0 <= k < w.len() implies w[k] != '\'' by {
            assert(is_word_char(w[k]));
        }
        assert(!w.contains('\''));
    }
}

/// Every token of a successful scan is writable.
proof fn lemma_scan_is_writable(t: Seq<char>, i: int)
    requires
        0 <= i <= t.len(),
    ensures
        scan_all(t, i) matches Ok(ls) ==> forall|k: int|
            0 <= k < ls.len() ==> token_writable(#[trigger] ls[k].kind),
    decreases t.len() - i,
{
    lemma_skip_spaces(t, i);
    let j = skip_spaces(t, i);
    if j < t.len() {
        lemma_scanned_is_writable(t, j);
        lemma_scan_advances(t, j);
        match scan_one(t, j) {
            Scan::Token { kind, next } => {
                lemma_scan_is_writable(t, next);
                match scan_all(t, next) {
                    Ok(more) => {
                        let first = seq![Lexeme { kind, at: j }];
                        let ls = first + more;
                        assert(scan_all(t, i) == Ok::<Seq<Lexeme>, LexFault>(ls));
                        assert forall|k: int| 0 <= k < ls.len() implies token_writable(
                            #[trigger] ls[k].kind,
                        ) by {
                            if k > 0 {
                                assert(ls[k] == more[k - 1]);
                            }
                        }
                    },
                    Err(_) => {},
                }
            },
            Scan::Fault(_) => {},
        }
    }
}

/// What is parsed from writable tokens is printable.
proof fn lemma_parsed_is_printable(ks: Seq<TokenKindView>, p: int)
    requires
        all_writable(ks),
        0 <= p,
    ensures
        parse_comparison(ks, p) matches Ok(r) ==> printable(r.expr),
        parse_not(ks, p) matches Ok(r) ==> printable(r.expr),
        parse_and(ks, p) matches Ok(r) ==> printable(r.expr),
        parse_or(ks, p) matches Ok(r) ==> printable(r.expr),
    decreases ks.len() - p, 5int,
{
    lemma_not_is_printable(ks, p);
    lemma_parse_advances(ks, p);
    if parse_not(ks, p) is Ok {
        lemma_and_rest_is_printable(ks, parse_not(ks, p)->Ok_0.expr, parse_not(ks, p)->Ok_0.next);
    }
    if parse_and(ks, p) is Ok {
        lemma_or_rest_is_printable(ks, parse_and(ks, p)->Ok_0.expr, parse_and(ks, p)->Ok_0.next);
    }
}

proof fn lemma_not_is_printable(ks: Seq<TokenKindView>, p: int)
    requires
        all_writable(ks),
        0 <= p,
    ensures
        parse_comparison(ks, p) matches Ok(r) ==> printable(r.expr),
        parse_not(ks, p) matches Ok(r) ==> printable(r.expr),
    decreases ks.len() - p, 1int,
{
    match kind_at(ks, p) {
        TokenKindView::LogicalKeyword(Logical::Not) => {
            lemma_not_is_printable(ks, p + 1);
        },
        TokenKindView::LParen => {
            lemma_parsed_is_printable(ks, p + 1);
        },
        _ => {
            if parse_comparison(ks, p) is Ok {
                if 0 <= p + 2 < ks.len() {
                    assert(token_writable(ks[p + 2]));
                }
            }
        },
    }
}

proof fn lemma_and_rest_is_printable(ks: Seq<TokenKindView>, left: ExprView, q: int)
    requires
        all_writable(ks),
        printable(left),
        0 <= q <= ks.len(),
    ensures
        parse_and_rest(ks, left, q) matches Ok(r) ==> printable(r.expr),
    decreases ks.len() - q, 0int,
{
    match kind_at(ks, q) {
        TokenKindView::LogicalKeyword(Logical::And) => {
            lemma_not_is_printable(ks, q + 1);
            match advancing(parse_not(ks, q + 1), q + 1, ks.len() as int) {
                Ok(right) => {
                    lemma_and_rest_is_printable(
                        ks,
                        ExprView::And(Box::new(left), Box::new(right.expr)),
                        right.next,
                    );
                },
                Err(_) => {},
            }
        },
        _ => {},
    }
}

proof fn lemma_or_rest_is_printable(ks: Seq<TokenKindView>, left: ExprView, q: int)
    requires
        all_writable(ks),
        printable(left),
        0 <= q <= ks.len(),
    ensures
        parse_or_rest(ks, left, q) matches Ok(r) ==> printable(r.expr),
    decreases ks.len() - q, 3int,
{
    match kind_at(ks, q) {
        TokenKindView::LogicalKeyword(Logical::Or) => {
            lemma_parsed_is_printable(ks, q + 1);
            match advancing(parse_and(ks, q + 1), q + 1, ks.len() as int) {
                Ok(right) => {
                    lemma_or_rest_is_printable(
                        ks,
                        ExprView::Or(Box::new(left), Box::new(right.expr)),
                        right.next,
                    );
                },
                Err(_) => {},
            }
        },
        _ => {},
    }
}

/// The canonical text of a printable expression is read back as that
/// expression.
pub proof fn law_canonical_text_reads_back(e: ExprView)
    requires
        printable(e),
    ensures
        parse_text(canonical_text(e)) == Ok::<ExprView, FilterCauseView>(e),
{
    let t = canonical_text(e);
    lemma_text_scans(e);
    lemma_tokens_read_back(e);
    let ls = scan_all(t, 0)->Ok_0;
    let tokens = lex(t)->Ok_0;
    assert(kinds(tokens) =~= to_tokens(e).push(TokenKindView::Eof));
}

/// What is parsed from a run of writable tokens is printable.
pub proof fn law_writable_tokens_give_printable(ks: Seq<TokenKindView>)
    requires
        all_writable(ks),
        parse_kinds(ks) is Ok,
    ensures
        printable(parse_kinds(ks)->Ok_0),
{
    lemma_parsed_is_printable(ks, 0);
}

/// Parsing, writing and parsing again gives the first result again: for
/// every run of tokens that is an expression, the canonical text of that
/// expression is read back as the same expression. An expression that is not
/// printable has no canonical text; none comes from the tokens of a text.
pub proof fn law_parse_print_round_trip(ks: Seq<TokenKindView>)
    requires
        parse_kinds(ks) is Ok,
        printable(parse_kinds(ks)->Ok_0),
    ensures
        parse_text(canonical_text(parse_kinds(ks)->Ok_0)) == Ok::<ExprView, FilterCauseView>(
            parse_kinds(ks)->Ok_0,
        ),
{
    law_canonical_text_reads_back(parse_kinds(ks)->Ok_0);
}

/// Every filter text that is accepted can be written back: its expression
/// is printable, and the canonical text of the expression is read back as the
/// same expression.
pub proof fn law_text_round_trip(s: Seq<char>)
    requires
        parse_text(s) is Ok,
    ensures
        printable(parse_text(s)->Ok_0),
        parse_text(canonical_text(parse_text(s)->Ok_0)) == parse_text(s),
{
    lemma_scan_is_writable(s, 0);
    let ls = scan_all(s, 0)->Ok_0;
    let tokens = lex(s)->Ok_0;
    let ks = kinds(tokens);
    assert forall|k: int| 0 <= k < ks.len() implies token_writable(#[trigger] ks[k]) by {
        assert(ks[k] == ls[k].kind);
    }
    law_writable_tokens_give_printable(ks);
    law_parse_print_round_trip(ks);
}

} // verus!
