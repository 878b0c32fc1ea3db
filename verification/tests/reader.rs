use zuko::ast::{expr_eq, Atom, Expression, List, Operator, Special, Symbol};
use zuko::read::{read, ReadError, Reader};

fn parse(source: &str) -> Expression {
    read(source).expect("source should parse")
}

fn parse_err(source: &str) -> ReadError {
    read(source).expect_err("source should be refused")
}

fn list(items: Vec<Expression>) -> Expression {
    let mut l = List::Nil;
    for item in items.into_iter().rev() {
        l = List::cons(item, l);
    }
    Expression::List(l)
}

fn num(n: i64) -> Expression {
    Expression::Atom(Atom::Number(n))
}

fn sym(s: &str) -> Expression {
    Expression::Atom(Atom::Symbol(Symbol::new(s)))
}

fn special(s: Special) -> Expression {
    Expression::Atom(Atom::Special(s))
}

#[test]
fn wraps_forms_in_do() {
    let expected = list(vec![
        special(Special::Do),
        list(vec![
            special(Special::Operator(Operator::Add)),
            num(1),
            num(2),
        ]),
    ]);
    assert!(expr_eq(&parse("(+ 1 2)"), &expected));
}

#[test]
fn reads_several_top_level_forms() {
    let expected = list(vec![special(Special::Do), num(1), num(2)]);
    assert!(expr_eq(&parse("1 2"), &expected));
}

#[test]
fn reads_empty_list() {
    let expected = list(vec![special(Special::Do), list(vec![])]);
    assert!(expr_eq(&parse("()"), &expected));
    assert!(expr_eq(&parse("(  )"), &expected));
}

#[test]
fn reads_strings_without_escapes() {
    let expected = list(vec![
        special(Special::Do),
        Expression::Atom(Atom::Str("a b".to_string())),
    ]);
    assert!(expr_eq(&parse("\"a b\""), &expected));
}

#[test]
fn reads_reserved_words_as_specials() {
    let expected = list(vec![
        special(Special::Do),
        special(Special::Define),
        special(Special::Define),
        special(Special::Function),
        special(Special::Function),
        special(Special::Macro),
        special(Special::If),
        special(Special::Quote),
        special(Special::Do),
    ]);
    assert!(expr_eq(
        &parse("def define fn function macro if quote do"),
        &expected,
    ));
}

#[test]
fn reads_symbols_with_punctuation() {
    let expected = list(vec![
        special(Special::Do),
        sym("number?"),
        sym("make-adder"),
        sym("a/b"),
    ]);
    assert!(expr_eq(&parse("number? make-adder a/b"), &expected));
}

#[test]
fn quote_shorthand_expands() {
    let expected = list(vec![
        special(Special::Do),
        list(vec![special(Special::Quote), sym("foo")]),
    ]);
    assert!(expr_eq(&parse("'foo"), &expected));
}

#[test]
fn all_operator_characters() {
    let expected = list(vec![
        special(Special::Do),
        special(Special::Operator(Operator::Add)),
        special(Special::Operator(Operator::Sub)),
        special(Special::Operator(Operator::Mul)),
        special(Special::Operator(Operator::Div)),
        special(Special::Operator(Operator::Mod)),
        special(Special::Operator(Operator::Gt)),
        special(Special::Operator(Operator::Lt)),
        special(Special::Operator(Operator::Eq)),
    ]);
    assert!(expr_eq(&parse("+ - * / % > < ="), &expected));
}

#[test]
fn unterminated_list_is_refused() {
    assert_eq!(parse_err("(+ 1 2"), ReadError::UnexpectedEndOfInput);
}

#[test]
fn unterminated_string_is_refused() {
    assert_eq!(parse_err("\"abc"), ReadError::UnexpectedEndOfInput);
}

#[test]
fn empty_input_is_refused() {
    assert_eq!(parse_err(""), ReadError::UnexpectedEndOfInput);
    assert_eq!(parse_err("   ; only a comment"), ReadError::UnexpectedEndOfInput);
}

#[test]
fn decimal_point_is_refused() {
    assert_eq!(parse_err("12.5"), ReadError::UnexpectedChar('.'));
}

#[test]
fn uppercase_is_refused() {
    assert_eq!(parse_err("Foo"), ReadError::UnexpectedChar('F'));
}

#[test]
fn trailing_dash_is_refused() {
    assert_eq!(parse_err("foo-"), ReadError::UnexpectedChar('-'));
}

#[test]
fn double_dash_is_refused() {
    assert_eq!(parse_err("a--b"), ReadError::UnexpectedChar('-'));
}

#[test]
fn symbol_continues_after_question_mark_is_refused() {
    assert_eq!(parse_err("a?b"), ReadError::UnexpectedChar('b'));
}

#[test]
fn number_too_large_is_refused() {
    assert!(expr_eq(
        &parse("9223372036854775807"),
        &list(vec![special(Special::Do), num(i64::MAX)]),
    ));
    assert_eq!(
        parse_err("9223372036854775808"),
        ReadError::UnexpectedChar('8')
    );
}

#[test]
fn letters_inside_a_number_are_refused() {
    assert_eq!(parse_err("12a"), ReadError::UnexpectedChar('a'));
}

#[test]
fn reader_reports_when_empty() {
    let mut reader = Reader::new("1 2".chars().collect());
    assert!(!reader.is_empty());
    reader.read_expr().unwrap();
    reader.read_expr().unwrap();
    assert!(reader.is_empty());
}

#[test]
fn reader_methods_scan_atoms() {
    let mut reader = Reader::new("12".chars().collect());
    assert_eq!(reader.read_number().unwrap(), 12);
    let mut reader = Reader::new("\"hi\"".chars().collect());
    assert_eq!(reader.read_string().unwrap(), "hi");
    let mut reader = Reader::new("*".chars().collect());
    assert!(matches!(reader.read_operator().unwrap(), Operator::Mul));
    let mut reader = Reader::new("foo".chars().collect());
    let s = reader.read_symbol().unwrap();
    assert_eq!(s.as_str(), "foo");
    let mut reader = Reader::new("quote".chars().collect());
    assert!(matches!(
        reader.read_symbol_or_special().unwrap(),
        Atom::Special(Special::Quote)
    ));
}

#[test]
fn skip_whitespace_and_comments_by_hand() {
    let mut reader = Reader::new("  ; note\n  42".chars().collect());
    reader.skip_whitespace_or_comment();
    assert!(!reader.is_empty());
    assert_eq!(reader.read_number().unwrap(), 42);
    assert!(reader.is_empty());
}

#[test]
fn skip_comment_consumes_nothing_without_semicolon() {
    let mut reader = Reader::new("ab".chars().collect());
    reader.skip_comment();
    let a = reader.read_symbol().unwrap();
    assert_eq!(a.as_str(), "ab");
}

#[test]
fn skip_comment_stops_after_the_newline() {
    let mut reader = Reader::new("; note\n42".chars().collect());
    reader.skip_comment();
    assert_eq!(reader.read_number().unwrap(), 42);
    assert!(reader.is_empty());
}

#[test]
fn character_after_comment_line_is_kept() {
    let expected = list(vec![
        special(Special::Do),
        list(vec![
            special(Special::Operator(Operator::Add)),
            num(1),
            num(2),
        ]),
    ]);
    assert!(expr_eq(&parse(";c\n(+ 1 2)"), &expected));
}
