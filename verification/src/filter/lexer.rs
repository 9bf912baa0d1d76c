//! The tokenizer: from filter text to a run of tokens.

use crate::date::is_digit;
use crate::filter::token::{Logical, Operator, Token, TokenKind, TokenKindView, TokenView, views_of};
use crate::text::{chars_of, fold, lower_char, to_lower};
use vstd::prelude::*;
use vstd::string::*;
use vstd::utf8::{char_is_scalar, encode_scalar, encode_utf8};

verus! {

/// Why a text could not be scanned. Offsets are byte offsets into the text.
#[derive(Clone, Copy, Debug, PartialEq, Eq, Structural)]
pub enum LexError {
    /// A character that starts no token.
    UnexpectedCharacter { ch: char, offset: usize },
    /// A quote at `offset` that is never closed.
    UnterminatedString { offset: usize },
}

/// ASCII whitespace, which separates tokens.
pub open spec fn is_space(c: char) -> bool {
    c == ' ' || c == '\t' || c == '\n' || c == '\r' || c == '\x0C'
}

/// The characters that may start a bare word: ASCII letters, digits and `_`.
pub open spec fn is_word_start(c: char) -> bool {
    ('a' <= c && c <= 'z') || ('A' <= c && c <= 'Z') || ('0' <= c && c <= '9') || c == '_'
}

/// The characters that may continue a bare word: those that start one, and `-`.
pub open spec fn is_word_char(c: char) -> bool {
    is_word_start(c) || c == '-'
}

/// The first position from `i` on that holds no whitespace.
pub open spec fn skip_spaces(s: Seq<char>, i: int) -> int
    decreases s.len() - i,
{
    if 0 <= i < s.len() && is_space(s[i]) {
        skip_spaces(s, i + 1)
    } else {
        i
    }
}

/// The first position from `i` on that holds no word character.
pub open spec fn word_end(s: Seq<char>, i: int) -> int
    decreases s.len() - i,
{
    if 0 <= i < s.len() && is_word_char(s[i]) {
        word_end(s, i + 1)
    } else {
        i
    }
}

/// The first position from `i` on that holds the quote `q`, or the length of
/// `s` where there is none.
pub open spec fn quote_end(s: Seq<char>, i: int, q: char) -> int
    decreases s.len() - i,
{
    if 0 <= i < s.len() && s[i] != q {
        quote_end(s, i + 1, q)
    } else {
        i
    }
}

/// Whether the bare word `w` names a date: `today`, `tomorrow`, or a word that
/// starts with a digit.
pub open spec fn is_date_word(w: Seq<char>) -> bool {
    w.len() > 0 && (is_digit(w[0]) || fold(w) == "today"@ || fold(w) == "tomorrow"@)
}

/// The token that the bare word `w` stands for on its own.
pub open spec fn classify(w: Seq<char>) -> TokenKindView {
    let f = fold(w);
    if f == "and"@ {
        TokenKindView::LogicalKeyword(Logical::And)
    } else if f == "or"@ {
        TokenKindView::LogicalKeyword(Logical::Or)
    } else if f == "not"@ {
        TokenKindView::LogicalKeyword(Logical::Not)
    } else if f == "like"@ {
        TokenKindView::Operator(Operator::Like)
    } else if f == "contains"@ {
        TokenKindView::Operator(Operator::Contains)
    } else if is_date_word(w) {
        TokenKindView::DateLiteral(w)
    } else {
        TokenKindView::Identifier(w)
    }
}

/// Why a scan stops, by position in characters.
pub enum LexFault {
    UnexpectedCharacter { ch: char, at: int },
    UnterminatedString { at: int },
}

/// The outcome of scanning one token.
pub enum Scan {
    Token { kind: TokenKindView, next: int },
    Fault(LexFault),
}

/// A token and the position, in characters, at which it starts.
pub struct Lexeme {
    pub kind: TokenKindView,
    pub at: int,
}

/// Whether the word `NULL` follows, after whitespace, the word that ends at `e`.
pub open spec fn null_follows(s: Seq<char>, e: int) -> bool {
    let j = skip_spaces(s, e);
    j > e && j < s.len() && is_word_start(s[j]) && fold(s.subrange(j, word_end(s, j))) == "null"@
}

/// Scans the bare word that starts at `i`. The words `IS` and `NULL`, with
/// only whitespace between them, make one operator.
pub open spec fn scan_word(s: Seq<char>, i: int) -> Scan {
    let e = word_end(s, i);
    let w = s.subrange(i, e);
    if fold(w) == "is"@ && null_follows(s, e) {
        Scan::Token {
            kind: TokenKindView::Operator(Operator::IsNull),
            next: word_end(s, skip_spaces(s, e)),
        }
    } else {
        Scan::Token { kind: classify(w), next: e }
    }
}

/// Scans the token that starts at `i`, a position that holds no whitespace.
pub open spec fn scan_one(s: Seq<char>, i: int) -> Scan {
    let c = s[i];
    if c == '(' {
        Scan::Token { kind: TokenKindView::LParen, next: i + 1 }
    } else if c == ')' {
        Scan::Token { kind: TokenKindView::RParen, next: i + 1 }
    } else if c == '=' {
        Scan::Token { kind: TokenKindView::Operator(Operator::Equals), next: i + 1 }
    } else if c == '<' {
        Scan::Token { kind: TokenKindView::Operator(Operator::LessThan), next: i + 1 }
    } else if c == '>' {
        Scan::Token { kind: TokenKindView::Operator(Operator::GreaterThan), next: i + 1 }
    } else if c == '!' {
        if i + 1 < s.len() && s[i + 1] == '=' {
            Scan::Token { kind: TokenKindView::Operator(Operator::NotEquals), next: i + 2 }
        } else {
            Scan::Fault(LexFault::UnexpectedCharacter { ch: c, at: i })
        }
    } else if c == '\'' || c == '"' {
        let e = quote_end(s, i + 1, c);
        if e < s.len() {
            Scan::Token { kind: TokenKindView::StringLiteral(s.subrange(i + 1, e)), next: e + 1 }
        } else {
            Scan::Fault(LexFault::UnterminatedString { at: i })
        }
    } else if is_word_start(c) {
        scan_word(s, i)
    } else {
        Scan::Fault(LexFault::UnexpectedCharacter { ch: c, at: i })
    }
}

/// `acc` followed by what a further scan gave.
pub open spec fn prepend(acc: Seq<Lexeme>, rest: Result<Seq<Lexeme>, LexFault>) -> Result<
    Seq<Lexeme>,
    LexFault,
> {
    match rest {
        Ok(more) => Ok(acc + more),
        Err(f) => Err(f),
    }
}

/// Scans `s` from position `i` to its end. A successful scan ends with `Eof`.
///
/// Every token ends after its start and inside the text, as
/// `lemma_scan_advances` shows; the case in which one does not is there so
/// that the definition visibly terminates.
pub open spec fn scan_all(s: Seq<char>, i: int) -> Result<Seq<Lexeme>, LexFault>
    decreases s.len() - i,
{
    let j = skip_spaces(s, i);
    if j < 0 || j >= s.len() {
        Ok(seq![Lexeme { kind: TokenKindView::Eof, at: s.len() as int }])
    } else {
        match scan_one(s, j) {
            Scan::Fault(f) => Err(f),
            Scan::Token { kind, next } => {
                if i <= j && j < next && next <= s.len() {
                    prepend(seq![Lexeme { kind, at: j }], scan_all(s, next))
                } else {
                    Err(LexFault::UnexpectedCharacter { ch: s[j], at: j })
                }
            },
        }
    }
}

/// The number of bytes that the first `i` characters of `s` take in UTF-8.
pub open spec fn byte_offset(s: Seq<char>, i: int) -> nat {
    encode_utf8(s.take(i)).len()
}

/// The token that a lexeme of the text `s` becomes.
pub open spec fn token_of(s: Seq<char>, l: Lexeme) -> TokenView {
    TokenView { kind: l.kind, offset: byte_offset(s, l.at) }
}

/// The error that a fault in the text `s` becomes.
pub open spec fn error_of(s: Seq<char>, f: LexFault) -> LexError {
    match f {
        LexFault::UnexpectedCharacter { ch, at } => LexError::UnexpectedCharacter {
            ch,
            offset: byte_offset(s, at) as usize,
        },
        LexFault::UnterminatedString { at } => LexError::UnterminatedString {
            offset: byte_offset(s, at) as usize,
        },
    }
}

/// The tokens of the text `s`, or the first error in it.
pub open spec fn lex(s: Seq<char>) -> Result<Seq<TokenView>, LexError> {
    match scan_all(s, 0) {
        Ok(ls) => Ok(Seq::new(ls.len(), |k: int| token_of(s, ls[k]))),
        Err(f) => Err(error_of(s, f)),
    }
}

/// A successful scan ends with `Eof`, at the end of the text, and holds no
/// other `Eof`.
pub proof fn law_scan_ends_with_eof(s: Seq<char>, i: int)
    requires
        0 <= i <= s.len(),
    ensures
        scan_all(s, i) matches Ok(ls) ==> ls.len() > 0 && ls.last() == (Lexeme {
            kind: TokenKindView::Eof,
            at: s.len() as int,
        }) && forall|k: int| 0 <= k < ls.len() - 1 ==> !((#[trigger] ls[k]).kind is Eof),
    decreases s.len() - i,
{
    lemma_skip_spaces(s, i);
    let j = skip_spaces(s, i);
    if j < s.len() {
        lemma_scan_advances(s, j);
        match scan_one(s, j) {
            Scan::Token { kind, next } => {
                law_scan_ends_with_eof(s, next);
                match scan_all(s, next) {
                    Ok(more) => {
                        let first = seq![Lexeme { kind, at: j }];
                        let ls = first + more;
                        assert(scan_all(s, i) == Ok::<Seq<Lexeme>, LexFault>(ls));
                        assert(ls.last() == more.last());
                        assert(!(kind is Eof));
                        assert forall|k: int| 0 <= k < ls.len() - 1 implies !((#[trigger] ls[k]).kind
                            is Eof) by {
                            if k > 0 {
                                assert(ls[k] == more[k - 1]);
                            }
                        }
                    },
                    Err(_) => {},
                }
            },
            Scan::Fault(_) => {},
        }
    }
}

/// `skip_spaces` moves forward over whitespace only, and stops inside the text
/// at a character that is none.
pub proof fn lemma_skip_spaces(s: Seq<char>, i: int)
    requires
        0 <= i <= s.len(),
    ensures
        i <= skip_spaces(s, i) <= s.len(),
        skip_spaces(s, i) < s.len() ==> !is_space(s[skip_spaces(s, i)]),
        forall|k: int| i <= k < skip_spaces(s, i) ==> is_space(#[trigger] s[k]),
    decreases s.len() - i,
{
    if i < s.len() && is_space(s[i]) {
        lemma_skip_spaces(s, i + 1);
    }
}

/// `word_end` moves forward over word characters only, and stops inside the
/// text at a character that is none.
pub proof fn lemma_word_end(s: Seq<char>, i: int)
    requires
        0 <= i <= s.len(),
    ensures
        i <= word_end(s, i) <= s.len(),
        word_end(s, i) < s.len() ==> !is_word_char(s[word_end(s, i)]),
        forall|k: int| i <= k < word_end(s, i) ==> is_word_char(#[trigger] s[k]),
    decreases s.len() - i,
{
    if i < s.len() && is_word_char(s[i]) {
        lemma_word_end(s, i + 1);
    }
}

/// `quote_end` moves forward to the first `q`, or to the end of the text.
pub proof fn lemma_quote_end(s: Seq<char>, i: int, q: char)
    requires
        0 <= i <= s.len(),
    ensures
        i <= quote_end(s, i, q) <= s.len(),
        quote_end(s, i, q) < s.len() ==> s[quote_end(s, i, q)] == q,
        forall|k: int| i <= k < quote_end(s, i, q) ==> #[trigger] s[k] != q,
    decreases s.len() - i,
{
    if i < s.len() && s[i] != q {
        lemma_quote_end(s, i + 1, q);
    }
}

/// A token that is scanned inside the text ends after its start and inside
/// the text, so `scan_all` never takes its last branch.
pub proof fn lemma_scan_advances(s: Seq<char>, i: int)
    requires
        0 <= i < s.len(),
    ensures
        scan_one(s, i) matches Scan::Token { next, .. } ==> i < next <= s.len(),
{
    let c = s[i];
    if c == '\'' || c == '"' {
        lemma_quote_end(s, i + 1, c);
    } else if is_word_start(c) {
        lemma_word_end(s, i);
        lemma_word_end(s, i + 1);
        let e = word_end(s, i);
        lemma_skip_spaces(s, e);
        lemma_word_end(s, skip_spaces(s, e));
    }
}

fn space(c: char) -> (r: bool)
    ensures
        r == is_space(c),
{
    c == ' ' || c == '\t' || c == '\n' || c == '\r' || c == '\x0C'
}

fn word_start(c: char) -> (r: bool)
    ensures
        r == is_word_start(c),
{
    ('a' <= c && c <= 'z') || ('A' <= c && c <= 'Z') || ('0' <= c && c <= '9') || c == '_'
}

fn word_char(c: char) -> (r: bool)
    ensures
        r == is_word_char(c),
{
    word_start(c) || c == '-'
}

fn skip(chars: &Vec<char>, i: usize) -> (j: usize)
    requires
        i <= chars.len(),
    ensures
        j == skip_spaces(chars@, i as int),
        i <= j <= chars.len(),
{
    let mut j: usize = i;
    while j < chars.len() && space(chars[j])
        invariant
            i <= j <= chars.len(),
            skip_spaces(chars@, j as int) == skip_spaces(chars@, i as int),
        decreases chars.len() - j,
    {
        j += 1;
    }
    j
}

fn find_word_end(chars: &Vec<char>, i: usize) -> (j: usize)
    requires
        i <= chars.len(),
    ensures
        j == word_end(chars@, i as int),
        i <= j <= chars.len(),
{
    let mut j: usize = i;
    while j < chars.len() && word_char(chars[j])
        invariant
            i <= j <= chars.len(),
            word_end(chars@, j as int) == word_end(chars@, i as int),
        decreases chars.len() - j,
    {
        j += 1;
    }
    j
}

fn find_quote_end(chars: &Vec<char>, i: usize, q: char) -> (j: usize)
    requires
        i <= chars.len(),
    ensures
        j == quote_end(chars@, i as int, q),
        i <= j <= chars.len(),
{
    let mut j: usize = i;
    while j < chars.len() && chars[j] != q
        invariant
            i <= j <= chars.len(),
            quote_end(chars@, j as int, q) == quote_end(chars@, i as int, q),
        decreases chars.len() - j,
    {
        j += 1;
    }
    j
}

/// Whether the characters from `from` to `to` spell `word`, ignoring ASCII case.
fn word_is(chars: &Vec<char>, from: usize, to: usize, word: &str) -> (r: bool)
    requires
        from <= to <= chars.len(),
    ensures
        r == (fold(chars@.subrange(from as int, to as int)) == word@),
{
    let expected = chars_of(word);
    let ghost sub = chars@.subrange(from as int, to as int);
    if expected.len() != to - from {
        assert(fold(sub).len() != word@.len());
        return false;
    }
    let mut k: usize = 0;
    while k < expected.len()
        invariant
            k <= expected.len(),
            expected.len() == to - from,
            from <= to <= chars.len(),
            expected@ == word@,
            sub == chars@.subrange(from as int, to as int),
            forall|j: int| 0 <= j < k ==> lower_char(sub[j]) == expected@[j],
        decreases expected.len() - k,
    {
        if to_lower(chars[from + k]) != expected[k] {
            assert(fold(sub)[k as int] != word@[k as int]);
            return false;
        }
        k += 1;
    }
    assert(fold(sub) =~= word@);
    true
}

/// The UTF-8 encoding of a text is that of a first part followed by that of
/// the rest.
pub proof fn lemma_encode_concat(a: Seq<char>, b: Seq<char>)
    ensures
        encode_utf8(a + b) == encode_utf8(a) + encode_utf8(b),
    decreases a.len(),
{
    if a.len() == 0 {
        assert(a + b =~= b);
        assert(encode_utf8(a) =~= Seq::<u8>::empty());
        assert(encode_utf8(a) + encode_utf8(b) =~= encode_utf8(b));
    } else {
        assert((a + b).drop_first() =~= a.drop_first() + b);
        lemma_encode_concat(a.drop_first(), b);
        assert(encode_utf8(a + b) =~= encode_utf8(a) + encode_utf8(b));
    }
}

/// Byte offsets grow by the width of each character and never pass the length
/// of the whole encoding.
pub proof fn lemma_byte_offset_step(s: Seq<char>, i: int)
    requires
        0 <= i < s.len(),
    ensures
        byte_offset(s, i + 1) == byte_offset(s, i) + encode_scalar(s[i] as u32).len(),
        byte_offset(s, i + 1) <= encode_utf8(s).len(),
        byte_offset(s, 0) == 0,
{
    assert(s.take(i + 1) =~= s.take(i) + seq![s[i]]);
    lemma_encode_concat(s.take(i), seq![s[i]]);
    assert(seq![s[i]].drop_first() =~= Seq::<char>::empty());
    assert(encode_utf8(seq![s[i]]) =~= encode_scalar(s[i] as u32)) by {
        reveal_with_fuel(encode_utf8, 2);
    }
    assert(s =~= s.take(i + 1) + s.skip(i + 1));
    lemma_encode_concat(s.take(i + 1), s.skip(i + 1));
    assert(s.take(0) =~= Seq::<char>::empty());
}

/// The number of bytes that `c` takes in UTF-8.
fn char_width(c: char) -> (w: usize)
    ensures
        w == encode_scalar(c as u32).len(),
        1 <= w <= 4,
{
    proof {
        char_is_scalar(c);
    }
    let v: u32 = c as u32;
    if v < 0x80 {
        1
    } else if v < 0x800 {
        2
    } else if v < 0x10000 {
        3
    } else {
        4
    }
}

/// The byte offset of every position of `text`, its end included.
fn byte_offsets(text: &str, chars: &Vec<char>) -> (r: Vec<usize>)
    requires
        chars@ == text@,
    ensures
        r.len() == chars.len() + 1,
        forall|i: int| 0 <= i <= chars.len() ==> r[i] == byte_offset(text@, i),
{
    let total = text.as_bytes().len();
    let mut out: Vec<usize> = Vec::new();
    out.push(0);
    let mut i: usize = 0;
    proof {
        assert(text@.take(0) =~= Seq::<char>::empty());
    }
    while i < chars.len()
        invariant
            i <= chars.len(),
            chars@ == text@,
            out.len() == i + 1,
            total == encode_utf8(text@).len(),
            forall|k: int| 0 <= k <= i ==> out[k] == byte_offset(text@, k),
        decreases chars.len() - i,
    {
        proof {
            lemma_byte_offset_step(text@, i as int);
        }
        let next = out[i] + char_width(chars[i]);
        out.push(next);
        i += 1;
    }
    out
}

/// Scans `text` into tokens. The run ends with an `Eof` token; offsets are
/// byte offsets into `text`.
pub fn tokenize(text: &str) -> (r: Result<Vec<Token>, LexError>)
    ensures
        match lex(text@) {
            Ok(tokens) => r is Ok && views_of(r.unwrap()@) == tokens,
            Err(e) => r == Err::<Vec<Token>, LexError>(e),
        },
        r matches Ok(tokens) ==> tokens@.len() > 0 && tokens@.last().kind@ is Eof,
{
    proof {
        law_scan_ends_with_eof(text@, 0);
    }
    let chars = chars_of(text);
    let offsets = byte_offsets(text, &chars);
    let n = chars.len();
    let ghost s = text@;
    let mut tokens: Vec<Token> = Vec::new();
    let ghost mut acc: Seq<Lexeme> = Seq::empty();
    let mut i: usize = 0;
    proof {
        assert(acc + scan_all(s, 0)->Ok_0 =~= scan_all(s, 0)->Ok_0);
    }
    loop
        invariant
            i <= n,
            n == chars.len(),
            chars@ == s,
            s == text@,
            offsets.len() == n + 1,
            forall|k: int| 0 <= k <= n ==> offsets[k] == byte_offset(s, k),
            scan_all(s, 0) == prepend(acc, scan_all(s, i as int)),
            tokens.len() == acc.len(),
            forall|k: int| 0 <= k < acc.len() ==> (#[trigger] tokens[k])@ == token_of(s, acc[k]),
        decreases n - i,
    {
        let j = skip(&chars, i);
        let ghost before = acc;
        if j >= n {
            tokens.push(Token { kind: TokenKind::Eof, offset: offsets[n] });
            proof {
                let last = Lexeme { kind: TokenKindView::Eof, at: n as int };
                acc = before.push(last);
                assert(scan_all(s, i as int) == Ok::<Seq<Lexeme>, LexFault>(seq![last]));
                assert(before + seq![last] =~= acc);
                let want = lex(s).unwrap();
                assert(views_of(tokens@) =~= want);
            }
            return Ok(tokens);
        }
        let c = chars[j];
        proof {
            lemma_scan_advances(s, j as int);
        }
        let kind: TokenKind;
        let next: usize;
        if c == '(' {
            kind = TokenKind::LParen;
            next = j + 1;
        } else if c == ')' {
            kind = TokenKind::RParen;
            next = j + 1;
        } else if c == '=' {
            kind = TokenKind::Operator(Operator::Equals);
            next = j + 1;
        } else if c == '<' {
            kind = TokenKind::Operator(Operator::LessThan);
            next = j + 1;
        } else if c == '>' {
            kind = TokenKind::Operator(Operator::GreaterThan);
            next = j + 1;
        } else if c == '!' {
            if j + 1 < n && chars[j + 1] == '=' {
                kind = TokenKind::Operator(Operator::NotEquals);
                next = j + 2;
            } else {
                return Err(LexError::UnexpectedCharacter { ch: c, offset: offsets[j] });
            }
        } else if c == '\'' || c == '"' {
            let e = find_quote_end(&chars, j + 1, c);
            if e < n {
                kind = TokenKind::StringLiteral(text.substring_char(j + 1, e).to_owned());
                next = e + 1;
            } else {
                return Err(LexError::UnterminatedString { offset: offsets[j] });
            }
        } else if word_start(c) {
            let e = find_word_end(&chars, j);
            let mut is_null = false;
            let mut after: usize = e;
            if word_is(&chars, j, e, "is") {
                let k = skip(&chars, e);
                if k > e && k < n && word_start(chars[k]) {
                    let e2 = find_word_end(&chars, k);
                    if word_is(&chars, k, e2, "null") {
                        is_null = true;
                        after = e2;
                    }
                }
            }
            if is_null {
                kind = TokenKind::Operator(Operator::IsNull);
                next = after;
            } else {
                kind = classify_word(text, &chars, j, e);
                next = e;
            }
        } else {
            return Err(LexError::UnexpectedCharacter { ch: c, offset: offsets[j] });
        }
        tokens.push(Token { kind, offset: offsets[j] });
        proof {
            let l = Lexeme { kind: kind@, at: j as int };
            acc = before.push(l);
            let more = scan_all(s, next as int)->Ok_0;
            assert(before + (seq![l] + more) =~= acc + more);
        }
        i = next;
    }
}

/// The token that the bare word from `from` to `to` stands for on its own.
fn classify_word(text: &str, chars: &Vec<char>, from: usize, to: usize) -> (r: TokenKind)
    requires
        chars@ == text@,
        from < to <= chars.len(),
    ensures
        r@ == classify(chars@.subrange(from as int, to as int)),
{
    if word_is(chars, from, to, "and") {
        TokenKind::LogicalKeyword(Logical::And)
    } else if word_is(chars, from, to, "or") {
        TokenKind::LogicalKeyword(Logical::Or)
    } else if word_is(chars, from, to, "not") {
        TokenKind::LogicalKeyword(Logical::Not)
    } else if word_is(chars, from, to, "like") {
        TokenKind::Operator(Operator::Like)
    } else if word_is(chars, from, to, "contains") {
        TokenKind::Operator(Operator::Contains)
    } else {
        let first = chars[from];
        let word = text.substring_char(from, to).to_owned();
        if ('0' <= first && first <= '9') || word_is(chars, from, to, "today") || word_is(
            chars,
            from,
            to,
            "tomorrow",
        ) {
            TokenKind::DateLiteral(word)
        } else {
            TokenKind::Identifier(word)
        }
    }
}

} // verus!
