use chrono::Datelike;
use clings::date::Date;
use clings::filter::ast::{Expression, Literal};
use clings::filter::engine::{
    filter_items, filter_items_on, parse_filter, FilterCause, FilterError,
};
use clings::filter::eval::{evaluate, evaluate_on};
use clings::filter::lexer::{tokenize, LexError};
use clings::filter::parser::{field_from_name, parse, Expected, ParseError};
use clings::filter::token::{Field, Logical, Operator, Token, TokenKind};
use clings::things::types::{Status, Todo};

fn date(year: i32, month: u8, day: u8) -> Date {
    Date { year, month, day }
}

fn clock_today() -> Date {
    let now = chrono::Local::now().date_naive();
    Date { year: now.year(), month: now.month() as u8, day: now.day() as u8 }
}

fn record(name: &str) -> Todo {
    Todo::new(name, name)
}

fn comparison(field: Field, operator: Operator, text: &str) -> Expression {
    Expression::Comparison { field, operator, literal: Literal::Text(text.to_string()) }
}

fn and(a: Expression, b: Expression) -> Expression {
    Expression::And(Box::new(a), Box::new(b))
}

fn or(a: Expression, b: Expression) -> Expression {
    Expression::Or(Box::new(a), Box::new(b))
}

fn not(a: Expression) -> Expression {
    Expression::Not(Box::new(a))
}

fn compiled(text: &str) -> Expression {
    match parse_filter(text) {
        Ok(expr) => expr,
        Err(e) => panic!("{} should be a filter: {}", text, e.message),
    }
}

fn refused(text: &str) -> FilterError {
    match parse_filter(text) {
        Ok(expr) => panic!("{} should be no filter, but is {:?}", text, expr),
        Err(e) => e,
    }
}

fn kinds(text: &str) -> Vec<TokenKind> {
    tokenize(text).unwrap().into_iter().map(|t| t.kind).collect()
}

fn names<'a>(found: &[&'a Todo]) -> Vec<&'a str> {
    found.iter().map(|t| t.name.as_str()).collect()
}

// ==================== tokenizer ====================

#[test]
fn tokenize_gives_tokens_with_byte_offsets() {
    assert_eq!(
        tokenize("status = 'open'").unwrap(),
        vec![
            Token { kind: TokenKind::Identifier("status".to_string()), offset: 0 },
            Token { kind: TokenKind::Operator(Operator::Equals), offset: 7 },
            Token { kind: TokenKind::StringLiteral("open".to_string()), offset: 9 },
            Token { kind: TokenKind::Eof, offset: 15 },
        ]
    );
}

#[test]
fn tokenize_counts_offsets_in_bytes() {
    let tokens = tokenize("name = '\u{e9}\u{1f600}' AND x").unwrap();
    let offsets: Vec<usize> = tokens.iter().map(|t| t.offset).collect();
    assert_eq!(offsets, vec![0, 5, 7, 16, 20, 21]);
    assert_eq!(tokens[2].kind, TokenKind::StringLiteral("\u{e9}\u{1f600}".to_string()));
}

#[test]
fn tokenize_of_nothing_is_eof() {
    assert_eq!(tokenize("").unwrap(), vec![Token { kind: TokenKind::Eof, offset: 0 }]);
    assert_eq!(tokenize(" \t\r\n\u{c}").unwrap(), vec![Token { kind: TokenKind::Eof, offset: 5 }]);
}

#[test]
fn tokenize_knows_operators_and_punctuation() {
    assert_eq!(
        kinds("= != < > ( ) LIKE CONTAINS IS NULL"),
        vec![
            TokenKind::Operator(Operator::Equals),
            TokenKind::Operator(Operator::NotEquals),
            TokenKind::Operator(Operator::LessThan),
            TokenKind::Operator(Operator::GreaterThan),
            TokenKind::LParen,
            TokenKind::RParen,
            TokenKind::Operator(Operator::Like),
            TokenKind::Operator(Operator::Contains),
            TokenKind::Operator(Operator::IsNull),
            TokenKind::Eof,
        ]
    );
    assert_eq!(
        kinds("a!=b<c>(d)=e"),
        vec![
            TokenKind::Identifier("a".to_string()),
            TokenKind::Operator(Operator::NotEquals),
            TokenKind::Identifier("b".to_string()),
            TokenKind::Operator(Operator::LessThan),
            TokenKind::Identifier("c".to_string()),
            TokenKind::Operator(Operator::GreaterThan),
            TokenKind::LParen,
            TokenKind::Identifier("d".to_string()),
            TokenKind::RParen,
            TokenKind::Operator(Operator::Equals),
            TokenKind::Identifier("e".to_string()),
            TokenKind::Eof,
        ]
    );
}

#[test]
fn tokenize_matches_keywords_in_any_case() {
    assert_eq!(
        kinds("and Or NOT like Contains"),
        vec![
            TokenKind::LogicalKeyword(Logical::And),
            TokenKind::LogicalKeyword(Logical::Or),
            TokenKind::LogicalKeyword(Logical::Not),
            TokenKind::Operator(Operator::Like),
            TokenKind::Operator(Operator::Contains),
            TokenKind::Eof,
        ]
    );
    assert_eq!(
        kinds("android NOTE or_"),
        vec![
            TokenKind::Identifier("android".to_string()),
            TokenKind::Identifier("NOTE".to_string()),
            TokenKind::Identifier("or_".to_string()),
            TokenKind::Eof,
        ]
    );
}

#[test]
fn tokenize_joins_is_and_null_when_adjacent() {
    assert_eq!(kinds("is null"), vec![TokenKind::Operator(Operator::IsNull), TokenKind::Eof]);
    assert_eq!(kinds("Is \t\n NuLL"), vec![TokenKind::Operator(Operator::IsNull), TokenKind::Eof]);
    let tokens = tokenize("due IS NULL)").unwrap();
    assert_eq!(tokens[1], Token { kind: TokenKind::Operator(Operator::IsNull), offset: 4 });
    assert_eq!(tokens[2], Token { kind: TokenKind::RParen, offset: 11 });
    assert_eq!(
        kinds("IS NULLS"),
        vec![
            TokenKind::Identifier("IS".to_string()),
            TokenKind::Identifier("NULLS".to_string()),
            TokenKind::Eof,
        ]
    );
    assert_eq!(
        kinds("is (null)"),
        vec![
            TokenKind::Identifier("is".to_string()),
            TokenKind::LParen,
            TokenKind::Identifier("null".to_string()),
            TokenKind::RParen,
            TokenKind::Eof,
        ]
    );
    assert_eq!(
        kinds("null is"),
        vec![
            TokenKind::Identifier("null".to_string()),
            TokenKind::Identifier("is".to_string()),
            TokenKind::Eof,
        ]
    );
    assert_eq!(kinds("isnull"), vec![TokenKind::Identifier("isnull".to_string()), TokenKind::Eof]);
}

#[test]
fn tokenize_keeps_date_words_as_written() {
    assert_eq!(
        kinds("today Tomorrow 2024-12-15 7days todays"),
        vec![
            TokenKind::DateLiteral("today".to_string()),
            TokenKind::DateLiteral("Tomorrow".to_string()),
            TokenKind::DateLiteral("2024-12-15".to_string()),
            TokenKind::DateLiteral("7days".to_string()),
            TokenKind::Identifier("todays".to_string()),
            TokenKind::Eof,
        ]
    );
}

#[test]
fn tokenize_takes_quotes_off_strings() {
    assert_eq!(
        kinds("'single' \"double\" 'it\"s' \"it's\" '' 'a b  AND c'"),
        vec![
            TokenKind::StringLiteral("single".to_string()),
            TokenKind::StringLiteral("double".to_string()),
            TokenKind::StringLiteral("it\"s".to_string()),
            TokenKind::StringLiteral("it's".to_string()),
            TokenKind::StringLiteral("".to_string()),
            TokenKind::StringLiteral("a b  AND c".to_string()),
            TokenKind::Eof,
        ]
    );
}

#[test]
fn tokenize_reports_unterminated_strings() {
    assert_eq!(tokenize("name = 'abc"), Err(LexError::UnterminatedString { offset: 7 }));
    assert_eq!(tokenize("\"abc'"), Err(LexError::UnterminatedString { offset: 0 }));
    assert_eq!(tokenize("'"), Err(LexError::UnterminatedString { offset: 0 }));
    assert_eq!(
        tokenize("'\u{e9}' = \"x"),
        Err(LexError::UnterminatedString { offset: 7 })
    );
}

#[test]
fn tokenize_reports_unexpected_characters() {
    assert_eq!(tokenize("name # 1"), Err(LexError::UnexpectedCharacter { ch: '#', offset: 5 }));
    assert_eq!(tokenize("a ! b"), Err(LexError::UnexpectedCharacter { ch: '!', offset: 2 }));
    assert_eq!(tokenize("a !"), Err(LexError::UnexpectedCharacter { ch: '!', offset: 2 }));
    assert_eq!(tokenize("due < today+1"), Err(LexError::UnexpectedCharacter { ch: '+', offset: 11 }));
    assert_eq!(tokenize("-1"), Err(LexError::UnexpectedCharacter { ch: '-', offset: 0 }));
    assert_eq!(
        tokenize("name = B\u{fc}ro"),
        Err(LexError::UnexpectedCharacter { ch: '\u{fc}', offset: 8 })
    );
    assert_eq!(
        tokenize("'\u{1f600}' \u{e9}"),
        Err(LexError::UnexpectedCharacter { ch: '\u{e9}', offset: 7 })
    );
}

// ==================== parser ====================

#[test]
fn parse_reads_a_comparison() {
    assert_eq!(compiled("status = 'open'"), comparison(Field::Status, Operator::Equals, "open"));
    assert_eq!(compiled("STATUS = open"), comparison(Field::Status, Operator::Equals, "open"));
    assert_eq!(compiled("Name like \"x y\""), comparison(Field::Name, Operator::Like, "x y"));
    assert_eq!(
        compiled("due < today"),
        Expression::Comparison {
            field: Field::Due,
            operator: Operator::LessThan,
            literal: Literal::DateKeyword("today".to_string()),
        }
    );
    assert_eq!(
        compiled("due != 2024-12-15"),
        Expression::Comparison {
            field: Field::Due,
            operator: Operator::NotEquals,
            literal: Literal::DateKeyword("2024-12-15".to_string()),
        }
    );
    assert_eq!(compiled("due > '2024-12-15'"), comparison(Field::Due, Operator::GreaterThan, "2024-12-15"));
    assert_eq!(compiled("project IS NULL"), comparison(Field::Project, Operator::IsNull, ""));
    assert_eq!(compiled("tags is null"), comparison(Field::Tags, Operator::IsNull, ""));
    assert_eq!(compiled("name = status"), comparison(Field::Name, Operator::Equals, "status"));
}

#[test]
fn parse_binds_and_tighter_than_or() {
    let a = || comparison(Field::Status, Operator::Equals, "open");
    let b = || comparison(Field::Name, Operator::Like, "x");
    let c = || comparison(Field::Tags, Operator::Contains, "t");
    let plain = compiled("status = 'open' AND name LIKE 'x' OR tags CONTAINS 't'");
    let grouped = compiled("(status = 'open' AND name LIKE 'x') OR tags CONTAINS 't'");
    assert_eq!(plain, grouped);
    assert_eq!(plain, or(and(a(), b()), c()));
    assert_eq!(
        compiled("status = 'open' OR name LIKE 'x' AND tags CONTAINS 't'"),
        or(a(), and(b(), c()))
    );
    assert_eq!(
        compiled("status = 'open' AND (name LIKE 'x' OR tags CONTAINS 't')"),
        and(a(), or(b(), c()))
    );
}

#[test]
fn parse_binds_not_tighter_than_and() {
    let a = || comparison(Field::Status, Operator::Equals, "open");
    let b = || comparison(Field::Name, Operator::Like, "x");
    assert_eq!(compiled("NOT status = 'open' AND name LIKE 'x'"), and(not(a()), b()));
    assert_eq!(compiled("NOT (status = 'open' AND name LIKE 'x')"), not(and(a(), b())));
    assert_eq!(compiled("not not status = 'open'"), not(not(a())));
    assert_eq!(compiled("status = 'open' AND NOT name LIKE 'x'"), and(a(), not(b())));
}

#[test]
fn parse_groups_to_the_left() {
    let a = || comparison(Field::Status, Operator::Equals, "a");
    let b = || comparison(Field::Status, Operator::Equals, "b");
    let c = || comparison(Field::Status, Operator::Equals, "c");
    assert_eq!(
        compiled("status = a AND status = b AND status = c"),
        and(and(a(), b()), c())
    );
    assert_eq!(compiled("status = a OR status = b OR status = c"), or(or(a(), b()), c()));
    assert_eq!(compiled("((status = a))"), a());
}

#[test]
fn parse_reads_the_example_of_the_manual() {
    assert_eq!(
        compiled("tags CONTAINS 'urgent' AND NOT project = 'Archive'"),
        and(
            comparison(Field::Tags, Operator::Contains, "urgent"),
            not(comparison(Field::Project, Operator::Equals, "Archive"))
        )
    );
}

#[test]
fn parse_reports_the_end_of_input() {
    assert_eq!(
        refused("status = ").cause,
        FilterCause::Parse(ParseError::UnexpectedEnd { expected: Expected::Literal })
    );
    assert_eq!(
        refused("status").cause,
        FilterCause::Parse(ParseError::UnexpectedEnd { expected: Expected::Operator })
    );
    assert_eq!(
        refused("").cause,
        FilterCause::Parse(ParseError::UnexpectedEnd { expected: Expected::Field })
    );
    assert_eq!(
        refused("status = 'open' AND").cause,
        FilterCause::Parse(ParseError::UnexpectedEnd { expected: Expected::Field })
    );
    assert_eq!(
        refused("NOT").cause,
        FilterCause::Parse(ParseError::UnexpectedEnd { expected: Expected::Field })
    );
    assert_eq!(
        refused("(").cause,
        FilterCause::Parse(ParseError::UnexpectedEnd { expected: Expected::Field })
    );
}

#[test]
fn parse_reports_unexpected_tokens() {
    assert_eq!(
        refused("= 'x'").cause,
        FilterCause::Parse(ParseError::UnexpectedToken {
            found: TokenKind::Operator(Operator::Equals),
            expected: Expected::Field,
            offset: 0,
        })
    );
    assert_eq!(
        refused("status 'open'").cause,
        FilterCause::Parse(ParseError::UnexpectedToken {
            found: TokenKind::StringLiteral("open".to_string()),
            expected: Expected::Operator,
            offset: 7,
        })
    );
    assert_eq!(
        refused("status = AND").cause,
        FilterCause::Parse(ParseError::UnexpectedToken {
            found: TokenKind::LogicalKeyword(Logical::And),
            expected: Expected::Literal,
            offset: 9,
        })
    );
    assert_eq!(
        refused("()").cause,
        FilterCause::Parse(ParseError::UnexpectedToken {
            found: TokenKind::RParen,
            expected: Expected::Field,
            offset: 1,
        })
    );
    assert_eq!(
        refused("today = 1").cause,
        FilterCause::Parse(ParseError::UnexpectedToken {
            found: TokenKind::DateLiteral("today".to_string()),
            expected: Expected::Field,
            offset: 0,
        })
    );
}

#[test]
fn parse_reports_unbalanced_parentheses() {
    assert_eq!(
        refused("(status = 'open'").cause,
        FilterCause::Parse(ParseError::UnbalancedParens { offset: 0 })
    );
    assert_eq!(
        refused("status = 'open')").cause,
        FilterCause::Parse(ParseError::UnbalancedParens { offset: 15 })
    );
    assert_eq!(
        refused("status = a AND (status = b OR (status = c)").cause,
        FilterCause::Parse(ParseError::UnbalancedParens { offset: 15 })
    );
    assert_eq!(
        refused("(status = a status = b)").cause,
        FilterCause::Parse(ParseError::UnbalancedParens { offset: 0 })
    );
}

#[test]
fn parse_reports_unknown_fields() {
    assert_eq!(
        refused("priority = 'high'").cause,
        FilterCause::Parse(ParseError::UnknownField { name: "priority".to_string(), offset: 0 })
    );
    assert_eq!(
        refused("status = open AND Colour = red").cause,
        FilterCause::Parse(ParseError::UnknownField { name: "Colour".to_string(), offset: 18 })
    );
    // The field is looked up before anything after it is read.
    assert_eq!(
        refused("a").cause,
        FilterCause::Parse(ParseError::UnknownField { name: "a".to_string(), offset: 0 })
    );
}

#[test]
fn parse_reports_operators_that_do_not_fit() {
    assert_eq!(
        refused("status < 'x'").cause,
        FilterCause::Parse(ParseError::OperatorNotValidForField {
            field: Field::Status,
            operator: Operator::LessThan,
            offset: 7,
        })
    );
    assert_eq!(
        refused("notes IS NULL").cause,
        FilterCause::Parse(ParseError::OperatorNotValidForField {
            field: Field::Notes,
            operator: Operator::IsNull,
            offset: 6,
        })
    );
    assert_eq!(
        refused("tags = 'x'").cause,
        FilterCause::Parse(ParseError::OperatorNotValidForField {
            field: Field::Tags,
            operator: Operator::Equals,
            offset: 5,
        })
    );
    // The operator is checked before the literal is read.
    assert_eq!(
        refused("due CONTAINS").cause,
        FilterCause::Parse(ParseError::OperatorNotValidForField {
            field: Field::Due,
            operator: Operator::Contains,
            offset: 4,
        })
    );
}

#[test]
fn every_field_takes_its_operators_and_no_others() {
    let fields = [
        Field::Status,
        Field::Due,
        Field::Tags,
        Field::Project,
        Field::Area,
        Field::Name,
        Field::Notes,
    ];
    let operators = [
        Operator::Equals,
        Operator::NotEquals,
        Operator::LessThan,
        Operator::GreaterThan,
        Operator::Like,
        Operator::Contains,
        Operator::IsNull,
    ];
    let table = [
        [true, true, false, false, true, false, false],
        [true, true, true, true, false, false, true],
        [false, false, false, false, false, true, true],
        [true, true, false, false, true, false, true],
        [true, true, false, false, true, false, true],
        [true, true, false, false, true, true, false],
        [true, true, false, false, true, true, false],
    ];
    for (i, field) in fields.iter().enumerate() {
        for (j, operator) in operators.iter().enumerate() {
            assert_eq!(field.accepts(*operator), table[i][j], "{:?} {:?}", field, operator);
        }
    }
}

#[test]
fn fields_are_named_in_any_case() {
    assert_eq!(field_from_name("status"), Some(Field::Status));
    assert_eq!(field_from_name("DUE"), Some(Field::Due));
    assert_eq!(field_from_name("Tags"), Some(Field::Tags));
    assert_eq!(field_from_name("pRoJeCt"), Some(Field::Project));
    assert_eq!(field_from_name("area"), Some(Field::Area));
    assert_eq!(field_from_name("NAME"), Some(Field::Name));
    assert_eq!(field_from_name("notes"), Some(Field::Notes));
    assert_eq!(field_from_name("note"), None);
    assert_eq!(field_from_name(""), None);
    assert_eq!(field_from_name("\u{212a}"), None);
}

#[test]
fn parse_reports_trailing_input() {
    assert_eq!(
        refused("status = 'open' status").cause,
        FilterCause::Parse(ParseError::TrailingInput { offset: 16 })
    );
    assert_eq!(
        refused("status = 'open' 'x'").cause,
        FilterCause::Parse(ParseError::TrailingInput { offset: 16 })
    );
    assert_eq!(
        refused("status = 'open' NOT name = x").cause,
        FilterCause::Parse(ParseError::TrailingInput { offset: 16 })
    );
    assert_eq!(
        refused("due IS NULL x").cause,
        FilterCause::Parse(ParseError::TrailingInput { offset: 12 })
    );
}

#[test]
fn parse_stops_at_the_first_eof() {
    let mut tokens = tokenize("status = open").unwrap();
    tokens.push(Token { kind: TokenKind::RParen, offset: 99 });
    assert_eq!(parse(&tokens), Ok(comparison(Field::Status, Operator::Equals, "open")));
    let no_eof = vec![
        Token { kind: TokenKind::Identifier("name".to_string()), offset: 0 },
        Token { kind: TokenKind::Operator(Operator::Equals), offset: 5 },
        Token { kind: TokenKind::Identifier("x".to_string()), offset: 7 },
    ];
    assert_eq!(parse(&no_eof), Ok(comparison(Field::Name, Operator::Equals, "x")));
    assert_eq!(parse(&Vec::new()), Err(ParseError::UnexpectedEnd { expected: Expected::Field }));
}

#[test]
fn lexical_errors_come_before_parse_errors() {
    assert_eq!(
        refused("bogus = 'x").cause,
        FilterCause::Lex(LexError::UnterminatedString { offset: 8 })
    );
    assert_eq!(
        refused("? AND").cause,
        FilterCause::Lex(LexError::UnexpectedCharacter { ch: '?', offset: 0 })
    );
}

#[test]
fn messages_point_at_the_error() {
    assert_eq!(
        refused("status = ").message,
        "unexpected end of input, expected a literal at offset 9\n  status = \n           ^"
    );
    assert_eq!(
        refused("priority = 1").message,
        "unknown field 'priority' at offset 0\n  priority = 1\n  ^"
    );
    assert_eq!(
        refused("status < 'x'").message,
        "operator < is not valid for field status at offset 7\n  status < 'x'\n         ^"
    );
    assert_eq!(
        refused("notes IS NULL").message,
        "operator IS NULL is not valid for field notes at offset 6\n  notes IS NULL\n        ^"
    );
    assert_eq!(
        refused("name = 'abc").message,
        "unterminated string at offset 7\n  name = 'abc\n         ^"
    );
    assert_eq!(
        refused("name # 1").message,
        "unexpected character at offset 5\n  name # 1\n       ^"
    );
    assert_eq!(
        refused("name 'x'").message,
        "unexpected token, expected an operator at offset 5\n  name 'x'\n       ^"
    );
    assert_eq!(
        refused("(name = x").message,
        "unbalanced parentheses at offset 0\n  (name = x\n  ^"
    );
    assert_eq!(
        refused("name = x y").message,
        "unexpected input after the expression at offset 9\n  name = x y\n           ^"
    );
    assert_eq!(
        refused("status = a AND name = b AND").message,
        "unexpected end of input, expected a field at offset 27\n  status = a AND name = b AND\n                             ^"
    );
}

#[test]
fn filter_error_new_builds_the_message() {
    let e = FilterError::new(FilterCause::Parse(ParseError::TrailingInput { offset: 12 }), "0123456789abcdef");
    assert_eq!(e.cause, FilterCause::Parse(ParseError::TrailingInput { offset: 12 }));
    assert_eq!(
        e.message,
        "unexpected input after the expression at offset 12\n  0123456789abcdef\n              ^"
    );
}

// ==================== evaluator ====================

fn sample() -> Todo {
    let mut t = record("Buy Milk");
    t.notes = "2% fat, from the corner shop".to_string();
    t.status = Status::Open;
    t.due_date = Some(date(2024, 12, 15));
    t.tags = vec!["urgent".to_string(), "Work".to_string()];
    t.project = Some("Errands".to_string());
    t.area = None;
    t
}

fn holds(text: &str, todo: &Todo) -> bool {
    evaluate_on(&compiled(text), todo, date(2024, 12, 15))
}

#[test]
fn text_is_compared_without_regard_to_case() {
    let t = sample();
    assert!(holds("name = 'buy milk'", &t));
    assert!(holds("name = 'BUY MILK'", &t));
    assert!(!holds("name = 'buy'", &t));
    assert!(!holds("name = 'buy milk '", &t));
    assert!(holds("name != 'buy'", &t));
    assert!(!holds("name != 'Buy Milk'", &t));
    assert!(holds("name LIKE 'MILK'", &t));
    assert!(holds("name LIKE 'y m'", &t));
    assert!(holds("name LIKE ''", &t));
    assert!(!holds("name LIKE 'milky'", &t));
    assert!(holds("name CONTAINS 'uy'", &t));
    assert!(holds("notes CONTAINS 'Corner'", &t));
    assert!(holds("notes LIKE '2%'", &t));
    assert!(!holds("notes = '2%'", &t));
}

#[test]
fn case_is_folded_for_ascii_letters_only() {
    let mut t = record("\u{c9}t\u{e9} [x]");
    t.notes = "K".to_string();
    assert!(holds("name = '\u{c9}T\u{e9} [X]'", &t));
    assert!(!holds("name = '\u{c9}T\u{c9} [X]'", &t));
    assert!(!holds("name = '\u{e9}t\u{e9} [x]'", &t));
    assert!(!holds("name = '\u{c9}t\u{e9} {x}'", &t));
    assert!(holds("notes = 'k'", &t));
    // The Kelvin sign is no letter K.
    assert!(!holds("notes = '\u{212a}'", &t));
    assert!(!holds("name = '\u{c9}t\u{e9} [x'", &t));
    assert!(!holds("name LIKE '@'", &t));
    assert!(holds("name LIKE '['", &t));
}

#[test]
fn status_is_compared_as_text() {
    let mut t = sample();
    assert!(holds("status = open", &t));
    assert!(holds("status = 'OPEN'", &t));
    assert!(holds("status != completed", &t));
    assert!(holds("status LIKE 'pe'", &t));
    t.status = Status::Completed;
    assert!(holds("status = completed", &t));
    assert!(holds("status LIKE 'complete'", &t));
    assert!(!holds("status = open", &t));
    t.status = Status::Canceled;
    assert!(holds("status = canceled", &t));
    assert!(!holds("status = cancelled", &t));
}

#[test]
fn tags_are_a_set() {
    let t = sample();
    assert!(holds("tags CONTAINS 'URGENT'", &t));
    assert!(holds("tags CONTAINS 'work'", &t));
    assert!(!holds("tags CONTAINS 'wor'", &t));
    assert!(!holds("tags CONTAINS 'urgent, Work'", &t));
    assert!(!holds("tags CONTAINS ''", &t));
    assert!(!holds("tags IS NULL", &t));
    assert!(holds("NOT tags IS NULL", &t));
    let bare = record("x");
    assert!(holds("tags IS NULL", &bare));
    assert!(!holds("tags CONTAINS 'urgent'", &bare));
}

#[test]
fn absent_text_is_null_and_equals_nothing() {
    let t = sample();
    assert!(holds("project = 'errands'", &t));
    assert!(holds("project LIKE 'RAND'", &t));
    assert!(!holds("project IS NULL", &t));
    assert!(holds("area IS NULL", &t));
    assert!(!holds("area = 'Home'", &t));
    assert!(!holds("area = ''", &t));
    assert!(!holds("area LIKE ''", &t));
    assert!(holds("area != 'Home'", &t));
    assert!(holds("NOT area = 'Home'", &t));
}

#[test]
fn due_dates_are_compared_as_dates() {
    let t = sample();
    assert!(holds("due = 2024-12-15", &t));
    assert!(holds("due = '2024-12-15'", &t));
    assert!(!holds("due != 2024-12-15", &t));
    assert!(holds("due != 2024-12-16", &t));
    assert!(holds("due < 2024-12-16", &t));
    assert!(!holds("due < 2024-12-15", &t));
    assert!(!holds("due < 2024-12-14", &t));
    assert!(holds("due > 2024-12-14", &t));
    assert!(holds("due > 2023-12-31", &t));
    assert!(holds("due < 2025-01-01", &t));
    assert!(holds("due > 2024-11-30", &t));
    assert!(!holds("due > 2024-12-15", &t));
    assert!(!holds("due IS NULL", &t));
}

#[test]
fn date_words_are_resolved_on_the_day_of_evaluation() {
    let t = sample();
    let e = compiled("due = today");
    assert!(evaluate_on(&e, &t, date(2024, 12, 15)));
    assert!(!evaluate_on(&e, &t, date(2024, 12, 14)));
    let e = compiled("due = TOMORROW");
    assert!(evaluate_on(&e, &t, date(2024, 12, 14)));
    assert!(!evaluate_on(&e, &t, date(2024, 12, 15)));
    let e = compiled("due < tomorrow");
    assert!(evaluate_on(&e, &t, date(2024, 12, 15)));
    assert!(!evaluate_on(&e, &t, date(2024, 12, 14)));
    let e = compiled("due > 'Today'");
    assert!(evaluate_on(&e, &t, date(2024, 12, 14)));
    assert!(!evaluate_on(&e, &t, date(2024, 12, 15)));

    let mut new_year = record("x");
    new_year.due_date = Some(date(2025, 1, 1));
    let e = compiled("due = tomorrow");
    assert!(evaluate_on(&e, &new_year, date(2024, 12, 31)));
    let mut leap = record("x");
    leap.due_date = Some(date(2024, 2, 29));
    assert!(evaluate_on(&e, &leap, date(2024, 2, 28)));
    leap.due_date = Some(date(2023, 3, 1));
    assert!(evaluate_on(&e, &leap, date(2023, 2, 28)));
    // No day follows the last day of the last year.
    let mut last = record("x");
    last.due_date = Some(date(i32::MAX, 12, 31));
    assert!(!evaluate_on(&e, &last, date(i32::MAX, 12, 31)));
    assert!(!evaluate_on(&compiled("due != tomorrow"), &last, date(i32::MAX, 12, 31)));
}

#[test]
fn a_literal_that_names_no_date_matches_no_due_date() {
    let t = sample();
    assert!(!holds("due = 'soon'", &t));
    assert!(!holds("due != 'soon'", &t));
    assert!(!holds("due < 7days", &t));
    assert!(!holds("due > 2024-02-30", &t));
    assert!(!holds("due = 2024-12-1", &t));
    assert!(!holds("due = '2024-12-15 '", &t));
    assert!(!holds("due = 2024-13-01", &t));
}

#[test]
fn an_absent_due_date_satisfies_only_is_null() {
    let t = record("x");
    assert!(holds("due IS NULL", &t));
    assert!(!holds("due = today", &t));
    assert!(!holds("due != today", &t));
    assert!(!holds("due < 2999-01-01", &t));
    assert!(!holds("due > 1000-01-01", &t));
    assert!(holds("NOT due < 2999-01-01", &t));
}

#[test]
fn connectives_combine_results() {
    let t = sample();
    assert!(holds("status = open AND due = today", &t));
    assert!(!holds("status = open AND due > today", &t));
    assert!(holds("status = completed OR due = today", &t));
    assert!(!holds("status = completed OR due > today", &t));
    assert!(holds("NOT status = completed", &t));
    assert!(!holds("NOT status = open", &t));
    assert!(holds("status = completed AND name = x OR tags CONTAINS work", &t));
    assert!(!holds("status = completed AND (name = x OR tags CONTAINS work)", &t));
}

#[test]
fn a_comparison_that_the_parser_would_refuse_holds_of_nothing() {
    let t = sample();
    let today = date(2024, 12, 15);
    assert!(!evaluate_on(&comparison(Field::Notes, Operator::IsNull, ""), &t, today));
    assert!(!evaluate_on(&comparison(Field::Name, Operator::LessThan, "z"), &t, today));
    assert!(!evaluate_on(&comparison(Field::Tags, Operator::Equals, "urgent"), &t, today));
    assert!(!evaluate_on(&comparison(Field::Due, Operator::Like, "2024"), &t, today));
    assert!(!evaluate_on(&comparison(Field::Status, Operator::Contains, "open"), &t, today));
    assert!(evaluate_on(&not(comparison(Field::Notes, Operator::IsNull, "")), &t, today));
}

#[test]
fn and_does_not_depend_on_the_order_of_its_operands() {
    let t = sample();
    let today = date(2024, 12, 15);
    let texts = ["status = open", "status = completed", "due > today", "tags CONTAINS work"];
    for a in texts {
        for b in texts {
            let ab = evaluate_on(&and(compiled(a), compiled(b)), &t, today);
            let ba = evaluate_on(&and(compiled(b), compiled(a)), &t, today);
            assert_eq!(ab, ba, "{a} / {b}");
            let ab = evaluate_on(&or(compiled(a), compiled(b)), &t, today);
            let ba = evaluate_on(&or(compiled(b), compiled(a)), &t, today);
            assert_eq!(ab, ba, "{a} / {b}");
        }
    }
}

#[test]
fn de_morgan_holds() {
    let t = sample();
    let today = date(2024, 12, 15);
    let texts = ["status = open", "status = completed", "due > today", "tags CONTAINS work"];
    for a in texts {
        for b in texts {
            let left = evaluate_on(&not(and(compiled(a), compiled(b))), &t, today);
            let right = evaluate_on(&or(not(compiled(a)), not(compiled(b))), &t, today);
            assert_eq!(left, right, "{a} / {b}");
        }
    }
}

#[test]
fn evaluate_reads_the_clock() {
    let mut t = record("x");
    t.due_date = Some(clock_today());
    assert!(evaluate(&compiled("due = today"), &t));
    assert!(evaluate(&compiled("due < tomorrow"), &t));
    assert!(!evaluate(&compiled("due > today"), &t));
    t.due_date = Some(date(1999, 12, 31));
    assert!(evaluate(&compiled("due < today"), &t));
    assert!(evaluate(&compiled("name = x"), &t));
}

// ==================== selection ====================

fn shelf() -> Vec<Todo> {
    let mut a = record("A");
    a.status = Status::Open;
    a.tags = vec!["x".to_string()];
    let mut b = record("B");
    b.status = Status::Completed;
    let mut c = record("C");
    c.status = Status::Open;
    let mut d = record("A");
    d.status = Status::Canceled;
    d.tags = vec!["X".to_string(), "y".to_string()];
    vec![a, b, c, d]
}

#[test]
fn scenario_open_and_due_before_tomorrow() {
    let mut a = record("A");
    a.status = Status::Open;
    a.due_date = Some(clock_today());
    let mut b = record("B");
    b.status = Status::Completed;
    b.due_date = None;
    let records = vec![a, b];
    let found = filter_items(&records, &compiled("status = 'open' AND due < tomorrow"));
    assert_eq!(names(&found), vec!["A"]);
    assert!(std::ptr::eq(found[0], &records[0]));

    let mut a = record("A");
    a.due_date = Some(date(2024, 6, 30));
    let mut b = record("B");
    b.status = Status::Completed;
    let records = vec![a, b];
    let expr = compiled("status = 'open' AND due < tomorrow");
    assert_eq!(names(&filter_items_on(&records, &expr, date(2024, 6, 30))), vec!["A"]);
    assert!(filter_items_on(&records, &expr, date(2024, 6, 29)).is_empty());
}

#[test]
fn scenario_tags_contain_without_regard_to_case() {
    let mut t = record("t");
    t.tags = vec!["urgent".to_string(), "work".to_string()];
    assert!(evaluate(&compiled("tags CONTAINS 'URGENT'"), &t));
}

#[test]
fn scenario_missing_literal() {
    let e = refused("status = ");
    assert!(matches!(e.cause, FilterCause::Parse(ParseError::UnexpectedEnd { .. })));
}

#[test]
fn scenario_notes_cannot_be_null() {
    // The notes of a record are always there, so the question is refused
    // before any record is looked at.
    let e = refused("notes IS NULL");
    assert!(matches!(
        e.cause,
        FilterCause::Parse(ParseError::OperatorNotValidForField {
            field: Field::Notes,
            operator: Operator::IsNull,
            ..
        })
    ));
    // Empty notes are asked for with an equation.
    let mut empty = record("e");
    empty.notes = String::new();
    let mut full = record("f");
    full.notes = "x".to_string();
    assert!(evaluate(&compiled("notes = ''"), &empty));
    assert!(!evaluate(&compiled("notes = ''"), &full));
}

#[test]
fn scenario_and_before_or() {
    assert_eq!(
        compiled("name = a AND name = b OR name = c"),
        compiled("(name = a AND name = b) OR name = c")
    );
    assert_ne!(
        compiled("name = a AND name = b OR name = c"),
        compiled("name = a AND (name = b OR name = c)")
    );
}

#[test]
fn selection_keeps_the_order_and_the_identity_of_records() {
    let records = shelf();
    let today = date(2024, 1, 1);
    let found = filter_items_on(&records, &compiled("status = open"), today);
    assert_eq!(found.len(), 2);
    assert!(std::ptr::eq(found[0], &records[0]));
    assert!(std::ptr::eq(found[1], &records[2]));
    let found = filter_items_on(&records, &compiled("name = a"), today);
    assert_eq!(found.len(), 2);
    assert!(std::ptr::eq(found[0], &records[0]));
    assert!(std::ptr::eq(found[1], &records[3]));
    let found = filter_items_on(&records, &compiled("tags contains x"), today);
    assert_eq!(found.len(), 2);
    assert!(std::ptr::eq(found[1], &records[3]));
    let all = filter_items_on(&records, &compiled("NOT name = z"), today);
    assert_eq!(all.len(), records.len());
    for (found, record) in all.iter().zip(records.iter()) {
        assert!(std::ptr::eq(*found, record));
    }
}

#[test]
fn selection_of_nothing_is_empty() {
    let records = shelf();
    let today = date(2024, 1, 1);
    assert!(filter_items_on(&records, &compiled("name = z"), today).is_empty());
    assert!(filter_items(&records, &compiled("name = z")).is_empty());
    assert!(filter_items_on(&[], &compiled("NOT name = z"), today).is_empty());
    assert!(filter_items(&[], &compiled("status = open OR NOT status = open")).is_empty());
}

#[test]
fn selecting_twice_changes_nothing() {
    let records = shelf();
    let today = date(2024, 1, 1);
    for text in ["status = open", "name = a OR tags IS NULL", "NOT tags contains y", "name = z"] {
        let expr = compiled(text);
        let once: Vec<Todo> =
            filter_items_on(&records, &expr, today).into_iter().cloned().collect();
        let twice: Vec<Todo> = filter_items_on(&once, &expr, today).into_iter().cloned().collect();
        assert_eq!(once, twice, "{text}");
    }
}

// ==================== canonical text ====================

#[test]
fn canonical_text_is_exact() {
    assert_eq!(
        compiled("STATUS = open").to_canonical_string(),
        Some("status = 'open'".to_string())
    );
    assert_eq!(
        compiled("name like \"it's\"").to_canonical_string(),
        Some("name LIKE \"it's\"".to_string())
    );
    assert_eq!(
        compiled("name != 'say \"hi\"'").to_canonical_string(),
        Some("name != 'say \"hi\"'".to_string())
    );
    assert_eq!(compiled("due<Today").to_canonical_string(), Some("due < Today".to_string()));
    assert_eq!(
        compiled("due > '2024-01-02'").to_canonical_string(),
        Some("due > '2024-01-02'".to_string())
    );
    assert_eq!(compiled("area is  null").to_canonical_string(), Some("area IS NULL".to_string()));
    assert_eq!(
        compiled("tags contains a and not project = b or due is null").to_canonical_string(),
        Some("((tags CONTAINS 'a') AND (NOT (project = 'b'))) OR (due IS NULL)".to_string())
    );
    assert_eq!(
        compiled("not not name = ''").to_canonical_string(),
        Some("NOT (NOT (name = ''))".to_string())
    );
}

#[test]
fn canonical_text_reads_back_as_the_same_expression() {
    let texts = [
        "status = 'open'",
        "status = open AND due < today",
        "tags CONTAINS 'urgent' AND NOT project = 'Archive'",
        "name = a AND name = b OR name = c",
        "name = a AND (name = b OR name = c)",
        "NOT (name = a OR NOT name = b) AND due IS NULL",
        "name LIKE \"it's\" OR notes CONTAINS 'say \"hi\"'",
        "due != 2024-12-15 or due > TOMORROW or due = 7days",
        "name = 'IS NULL' AND area IS NULL AND tags is null",
        "name = and_ OR name = 'AND' OR name = '  (  '",
        "name = '\u{e9}\u{1f600}\n\t'",
        "((((name = x))))",
    ];
    for text in texts {
        let first = compiled(text);
        let written = first.to_canonical_string().expect(text);
        let second = compiled(&written);
        assert_eq!(first, second, "{text} / {written}");
        assert_eq!(second.to_canonical_string(), Some(written));
    }
}

#[test]
fn some_expressions_have_no_canonical_text() {
    // A text with both quotes in it cannot be written in either.
    assert_eq!(comparison(Field::Name, Operator::Equals, "a'b\"c").to_canonical_string(), None);
    // A date word has to be a bare word that the tokenizer takes for a date.
    let dated = |word: &str| Expression::Comparison {
        field: Field::Due,
        operator: Operator::Equals,
        literal: Literal::DateKeyword(word.to_string()),
    };
    assert_eq!(dated("next week").to_canonical_string(), None);
    assert_eq!(dated("soon").to_canonical_string(), None);
    assert_eq!(dated("").to_canonical_string(), None);
    assert_eq!(dated("today").to_canonical_string(), Some("due = today".to_string()));
    // An operator has to suit its field, and IS NULL carries no literal.
    assert_eq!(comparison(Field::Status, Operator::LessThan, "x").to_canonical_string(), None);
    assert_eq!(comparison(Field::Due, Operator::IsNull, "x").to_canonical_string(), None);
    assert_eq!(
        and(comparison(Field::Name, Operator::Equals, "ok"), dated("soon")).to_canonical_string(),
        None
    );
}
