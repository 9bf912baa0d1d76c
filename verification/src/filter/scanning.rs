//! How the tokenizer moves over a text of known shape.

use crate::date::is_digit;
use crate::filter::ast::LiteralView;
use crate::filter::engine::{field_text, operator_text};
use crate::filter::lexer::{
    LexFault,
    Lexeme,
    Scan,
    classify,
    is_date_word,
    is_space,
    is_word_char,
    lemma_scan_advances,
    null_follows,
    quote_end,
    scan_all,
    scan_one,
    scan_word,
    skip_spaces,
    word_end,
};
use crate::filter::printer::{is_word, literal_text, printable_literal, quote_for};
use crate::filter::token::{Field, Logical, Operator, TokenKindView};
use crate::filter::words::{
    lemma_capital_keywords,
    lemma_field_words,
    lemma_fold_of_small,
    lemma_small_keywords,
};
use crate::text::fold;
use vstd::prelude::*;

verus! {

/// Whether the text `x` stands in `t` from position `i` on.
pub open spec fn has_at(t: Seq<char>, i: int, x: Seq<char>) -> bool {
    0 <= i && i + x.len() <= t.len() && forall|k: int|
        0 <= k < x.len() ==> t[i + k] == #[trigger] x[k]
}

/// Whether a bare word that reaches position `j` ends there.
pub open spec fn word_stops(t: Seq<char>, j: int) -> bool {
    j >= t.len() || !is_word_char(t[j])
}

/// The kinds of the tokens of `t` from position `i` on, where they can be
/// scanned.
pub open spec fn kinds_from(t: Seq<char>, i: int) -> Option<Seq<TokenKindView>> {
    match scan_all(t, i) {
        Ok(ls) => Some(Seq::new(ls.len(), |k: int| ls[k].kind)),
        Err(_) => None,
    }
}

/// `ks` followed by what a further scan gave.
pub open spec fn followed_by(ks: Seq<TokenKindView>, rest: Option<Seq<TokenKindView>>) -> Option<
    Seq<TokenKindView>,
> {
    match rest {
        Some(more) => Some(ks + more),
        None => None,
    }
}

/// A text that stands somewhere stands there part by part.
pub proof fn lemma_has_at_parts(t: Seq<char>, i: int, a: Seq<char>, b: Seq<char>)
    requires
        has_at(t, i, a + b),
    ensures
        has_at(t, i, a),
        has_at(t, i + a.len(), b),
{
    let ab = a + b;
    assert forall|k: int| 0 <= k < a.len() implies t[i + k] == #[trigger] a[k] by {
        assert(ab[k] == a[k]);
    }
    assert forall|k: int| 0 <= k < b.len() implies t[i + a.len() + k] == #[trigger] b[k] by {
        assert(ab[a.len() + k] == b[k]);
        assert(t[i + (a.len() + k)] == ab[a.len() + k]);
    }
}

/// A text that stands somewhere is the part of the whole that starts there.
pub proof fn lemma_has_at_subrange(t: Seq<char>, i: int, x: Seq<char>)
    requires
        has_at(t, i, x),
    ensures
        t.subrange(i, i + x.len()) == x,
{
    assert(t.subrange(i, i + x.len()) =~= x);
}

/// A run of word characters that is followed by none is one bare word.
pub proof fn lemma_word_run(t: Seq<char>, a: int, b: int)
    requires
        0 <= a <= b <= t.len(),
        forall|j: int| a <= j < b ==> is_word_char(#[trigger] t[j]),
        word_stops(t, b),
    ensures
        word_end(t, a) == b,
    decreases b - a,
{
    if a < b {
        lemma_word_run(t, a + 1, b);
    }
}

/// A run without the quote `q` that is followed by `q` ends the string there.
pub proof fn lemma_quote_run(t: Seq<char>, a: int, b: int, q: char)
    requires
        0 <= a <= b < t.len(),
        forall|j: int| a <= j < b ==> #[trigger] t[j] != q,
        t[b] == q,
    ensures
        quote_end(t, a, q) == b,
    decreases b - a,
{
    if a < b {
        lemma_quote_run(t, a + 1, b, q);
    }
}

/// One space before a character that is none is skipped, and no more.
pub proof fn lemma_one_space(t: Seq<char>, j: int)
    requires
        0 <= j,
        j + 1 < t.len(),
        t[j] == ' ',
        !is_space(t[j + 1]),
    ensures
        skip_spaces(t, j) == j + 1,
{
    assert(skip_spaces(t, j + 1) == j + 1);
}

/// `followed_by` can be taken in two steps.
pub proof fn lemma_followed_twice(
    a: Seq<TokenKindView>,
    b: Seq<TokenKindView>,
    rest: Option<Seq<TokenKindView>>,
)
    ensures
        followed_by(a, followed_by(b, rest)) == followed_by(a + b, rest),
{
    if rest is Some {
        assert(a + (b + rest->0) =~= (a + b) + rest->0);
    }
}

/// One token scanned at `j`, the first position from `i` on that holds no
/// whitespace, is the first of the tokens from `i` on.
pub proof fn lemma_scan_step(t: Seq<char>, i: int, j: int, kind: TokenKindView, next: int)
    requires
        0 <= i <= j < t.len(),
        skip_spaces(t, i) == j,
        scan_one(t, j) == (Scan::Token { kind, next }),
    ensures
        kinds_from(t, i) == followed_by(seq![kind], kinds_from(t, next)),
        j < next <= t.len(),
{
    lemma_scan_advances(t, j);
    match scan_all(t, next) {
        Ok(more) => {
            let first = seq![Lexeme { kind, at: j }];
            assert(scan_all(t, i) == Ok::<Seq<Lexeme>, LexFault>(first + more));
            let all = first + more;
            assert(Seq::new(all.len(), |k: int| all[k].kind) =~= seq![kind] + Seq::new(
                more.len(),
                |k: int| more[k].kind,
            ));
        },
        Err(_) => {},
    }
}

/// Where only whitespace is left, the scan ends with `Eof`.
pub proof fn lemma_scan_end(t: Seq<char>, i: int)
    requires
        skip_spaces(t, i) >= t.len(),
    ensures
        kinds_from(t, i) == Some(seq![TokenKindView::Eof]),
{
    let ls = scan_all(t, i)->Ok_0;
    assert(Seq::new(ls.len(), |k: int| ls[k].kind) =~= seq![TokenKindView::Eof]);
}

/// The name of a field is a bare word that stands for itself.
pub proof fn lemma_classify_field(field: Field)
    ensures
        is_word(field_text(field)),
        fold(field_text(field)) != "is"@,
        classify(field_text(field)) == TokenKindView::Identifier(field_text(field)),
{
    lemma_field_words();
    lemma_small_keywords();
    lemma_fold_of_small(field_text(field));
    assert(!is_digit(field_text(field)[0]));
}

/// The keywords, written in capitals, are bare words that stand for their
/// tokens.
pub proof fn lemma_classify_keywords()
    ensures
        is_word(seq!['A', 'N', 'D']),
        is_word(seq!['O', 'R']),
        is_word(seq!['N', 'O', 'T']),
        is_word(seq!['L', 'I', 'K', 'E']),
        is_word(seq!['C', 'O', 'N', 'T', 'A', 'I', 'N', 'S']),
        fold(seq!['A', 'N', 'D']) != "is"@,
        fold(seq!['O', 'R']) != "is"@,
        fold(seq!['N', 'O', 'T']) != "is"@,
        fold(seq!['L', 'I', 'K', 'E']) != "is"@,
        fold(seq!['C', 'O', 'N', 'T', 'A', 'I', 'N', 'S']) != "is"@,
        classify(seq!['A', 'N', 'D']) == TokenKindView::LogicalKeyword(Logical::And),
        classify(seq!['O', 'R']) == TokenKindView::LogicalKeyword(Logical::Or),
        classify(seq!['N', 'O', 'T']) == TokenKindView::LogicalKeyword(Logical::Not),
        classify(seq!['L', 'I', 'K', 'E']) == TokenKindView::Operator(Operator::Like),
        classify(seq!['C', 'O', 'N', 'T', 'A', 'I', 'N', 'S']) == TokenKindView::Operator(
            Operator::Contains,
        ),
        fold(seq!['I', 'S']) == "is"@,
        fold(seq!['N', 'U', 'L', 'L']) == "null"@,
{
    lemma_small_keywords();
    assert(fold(seq!['A', 'N', 'D']) =~= seq!['a', 'n', 'd']);
    assert(fold(seq!['O', 'R']) =~= seq!['o', 'r']);
    assert(fold(seq!['N', 'O', 'T']) =~= seq!['n', 'o', 't']);
    assert(fold(seq!['L', 'I', 'K', 'E']) =~= seq!['l', 'i', 'k', 'e']);
    assert(fold(seq!['C', 'O', 'N', 'T', 'A', 'I', 'N', 'S']) =~= seq![
        'c',
        'o',
        'n',
        't',
        'a',
        'i',
        'n',
        's',
    ]);
    assert(fold(seq!['I', 'S']) =~= seq!['i', 's']);
    assert(fold(seq!['N', 'U', 'L', 'L']) =~= seq!['n', 'u', 'l', 'l']);
    assert(seq!['o', 'r'][0] != seq!['i', 's'][0]);
    assert(seq!['a', 'n', 'd'][0] != seq!['n', 'o', 't'][0]);
}

/// A bare word that names a date stands for a date literal.
pub proof fn lemma_classify_date(w: Seq<char>)
    requires
        is_word(w),
        is_date_word(w),
    ensures
        fold(w) != "is"@,
        classify(w) == TokenKindView::DateLiteral(w),
{
    lemma_small_keywords();
    let f = fold(w);
    assert(f[0] == crate::text::lower_char(w[0]));
    if is_digit(w[0]) {
        assert(is_digit(f[0]));
        assert("and"@[0] == 'a');
        assert("or"@[0] == 'o');
        assert("not"@[0] == 'n');
        assert("like"@[0] == 'l');
        assert("contains"@[0] == 'c');
        assert("is"@[0] == 'i');
    } else {
        assert(f[0] == 't');
        assert("and"@[0] == 'a');
        assert("or"@[0] == 'o');
        assert("not"@[0] == 'n');
        assert("like"@[0] == 'l');
        assert("contains"@[0] == 'c');
        assert("is"@[0] == 'i');
    }
}

/// A bare word that is not `IS` is scanned as what it stands for.
pub proof fn lemma_scan_plain_word(t: Seq<char>, p: int, w: Seq<char>)
    requires
        has_at(t, p, w),
        is_word(w),
        word_stops(t, p + w.len()),
        fold(w) != "is"@,
    ensures
        scan_one(t, p) == (Scan::Token { kind: classify(w), next: p + w.len() }),
{
    assert forall|j: int| p <= j < p + w.len() implies is_word_char(#[trigger] t[j]) by {
        assert(t[p + (j - p)] == w[j - p]);
    }
    lemma_word_run(t, p, p + w.len());
    lemma_has_at_subrange(t, p, w);
    assert(t[p + 0] == w[0]);
    assert(scan_word(t, p) == (Scan::Token { kind: classify(w), next: p + w.len() }));
}

/// The words `IS NULL` are scanned as one operator.
pub proof fn lemma_scan_is_null(t: Seq<char>, p: int)
    requires
        has_at(t, p, seq!['I', 'S', ' ', 'N', 'U', 'L', 'L']),
        word_stops(t, p + 7),
    ensures
        scan_one(t, p) == (Scan::Token {
            kind: TokenKindView::Operator(Operator::IsNull),
            next: p + 7,
        }),
{
    let x = seq!['I', 'S', ' ', 'N', 'U', 'L', 'L'];
    lemma_classify_keywords();
    assert(t[p + 0] == x[0]);
    assert(t[p + 1] == x[1]);
    assert(t[p + 2] == x[2]);
    assert(t[p + 3] == x[3]);
    assert(t[p + 4] == x[4]);
    assert(t[p + 5] == x[5]);
    assert(t[p + 6] == x[6]);
    lemma_word_run(t, p, p + 2);
    lemma_one_space(t, p + 2);
    lemma_word_run(t, p + 3, p + 7);
    assert(t.subrange(p, p + 2) =~= seq!['I', 'S']);
    assert(t.subrange(p + 3, p + 7) =~= seq!['N', 'U', 'L', 'L']);
    assert(null_follows(t, p + 2));
    assert(scan_word(t, p) == (Scan::Token {
        kind: TokenKindView::Operator(Operator::IsNull),
        next: p + 7,
    }));
}

/// A text in quotes that it does not hold itself is scanned as a string.
pub proof fn lemma_scan_string(t: Seq<char>, p: int, s: Seq<char>, q: char)
    requires
        q == '\'' || q == '"',
        0 <= p,
        p + s.len() + 1 < t.len(),
        t[p] == q,
        has_at(t, p + 1, s),
        !s.contains(q),
        t[p + 1 + s.len()] == q,
    ensures
        scan_one(t, p) == (Scan::Token {
            kind: TokenKindView::StringLiteral(s),
            next: p + s.len() + 2,
        }),
{
    assert forall|j: int| p + 1 <= j < p + 1 + s.len() implies #[trigger] t[j] != q by {
        assert(t[p + 1 + (j - p - 1)] == s[j - p - 1]);
        assert(s.contains(s[j - p - 1]));
    }
    lemma_quote_run(t, p + 1, p + 1 + s.len(), q);
    lemma_has_at_subrange(t, p + 1, s);
}

/// The token that writes a literal.
pub open spec fn literal_token(l: LiteralView) -> TokenKindView {
    match l {
        LiteralView::Text(s) => TokenKindView::StringLiteral(s),
        LiteralView::DateKeyword(s) => TokenKindView::DateLiteral(s),
    }
}

/// The name of a field, where it stands as a word of its own, is scanned as
/// an identifier.
pub proof fn lemma_scan_field(t: Seq<char>, p: int, field: Field)
    requires
        has_at(t, p, field_text(field)),
        word_stops(t, p + field_text(field).len()),
    ensures
        scan_one(t, p) == (Scan::Token {
            kind: TokenKindView::Identifier(field_text(field)),
            next: p + field_text(field).len(),
        }),
        !is_space(t[p]),
        0 <= p < t.len(),
{
    lemma_classify_field(field);
    lemma_scan_plain_word(t, p, field_text(field));
    assert(t[p + 0] == field_text(field)[0]);
}

/// An operator, where it is not run together with a word, is scanned as
/// itself.
pub proof fn lemma_scan_operator(t: Seq<char>, p: int, operator: Operator)
    requires
        has_at(t, p, operator_text(operator)),
        word_stops(t, p + operator_text(operator).len()),
    ensures
        scan_one(t, p) == (Scan::Token {
            kind: TokenKindView::Operator(operator),
            next: p + operator_text(operator).len(),
        }),
        !is_space(t[p]),
        0 <= p < t.len(),
{
    lemma_capital_keywords();
    lemma_classify_keywords();
    let o = operator_text(operator);
    assert(t[p + 0] == o[0]);
    match operator {
        Operator::NotEquals => {
            assert(t[p + 1] == o[1]);
        },
        Operator::Like | Operator::Contains => {
            lemma_scan_plain_word(t, p, o);
        },
        Operator::IsNull => {
            lemma_scan_is_null(t, p);
        },
        _ => {},
    }
}

/// A literal that can be written is scanned, from its text, as itself.
pub proof fn lemma_scan_literal(t: Seq<char>, p: int, literal: LiteralView)
    requires
        printable_literal(literal),
        has_at(t, p, literal_text(literal)),
        word_stops(t, p + literal_text(literal).len()),
    ensures
        scan_one(t, p) == (Scan::Token {
            kind: literal_token(literal),
            next: p + literal_text(literal).len(),
        }),
        !is_space(t[p]),
        0 <= p < t.len(),
{
    match literal {
        LiteralView::Text(s) => {
            let q = quote_for(s)->0;
            let x = literal_text(literal);
            let n = s.len() as int;
            assert(x.len() == n + 2);
            assert(t[p + 0] == x[0]);
            assert(t[p + (n + 1)] == x[n + 1]);
            assert forall|k: int| 0 <= k < n implies t[p + 1 + k] == #[trigger] s[k] by {
                assert(t[p + (k + 1)] == x[k + 1]);
            }
            lemma_scan_string(t, p, s, q);
        },
        LiteralView::DateKeyword(s) => {
            lemma_classify_date(s);
            lemma_scan_plain_word(t, p, s);
            assert(t[p + 0] == s[0]);
        },
    }
}

} // verus!
