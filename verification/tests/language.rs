//! End-to-end tests: token streams through the parser and the executor.

use miniscript::ast::Statement;
use miniscript::executor::Executor;
use miniscript::parser::Parser;
use miniscript::token::{ParseError, Token, TokenKind};
use miniscript::value::{RuntimeError, RuntimeType, Value};

fn t(kind: TokenKind, text: &str) -> Token {
    Token { kind, value: text.to_string() }
}

fn run(tokens: Vec<Token>) -> (Result<Value, RuntimeError>, Executor) {
    let mut parser = Parser::new(tokens);
    let program = parser.parse_program().expect("program should parse");
    let mut executor = Executor::new();
    let r = executor.execute(&program);
    (r, executor)
}

#[test]
fn bind_then_lookup() {
    let (r, mut ex) = run(vec![
        t(TokenKind::Const, "const"),
        t(TokenKind::Ident, "x"),
        t(TokenKind::Assign, "="),
        t(TokenKind::Int, "42"),
        t(TokenKind::Eol, "\n"),
        t(TokenKind::Eof, ""),
    ]);
    assert_eq!(r, Ok(Value::Integer(42)));
    assert_eq!(ex.get_variable("x"), Some(Value::Integer(42)));
}

#[test]
fn unbound_identifier_is_undefined() {
    let (r, mut ex) = run(vec![
        t(TokenKind::Const, "const"),
        t(TokenKind::Ident, "x"),
        t(TokenKind::Assign, "="),
        t(TokenKind::Ident, "y"),
        t(TokenKind::Eol, "\n"),
        t(TokenKind::Eof, ""),
    ]);
    assert_eq!(r, Ok(Value::Undefined));
    assert_eq!(ex.get_variable("x"), Some(Value::Undefined));
    assert_eq!(ex.get_variable("y"), None);
}

#[test]
fn print_three_arguments_three_lines() {
    let (r, ex) = run(vec![
        t(TokenKind::Print, "Print"),
        t(TokenKind::Int, "1"),
        t(TokenKind::Comma, ","),
        t(TokenKind::Int, "2"),
        t(TokenKind::Comma, ","),
        t(TokenKind::Int, "3"),
        t(TokenKind::Eol, "\n"),
        t(TokenKind::Eof, ""),
    ]);
    assert_eq!(r, Ok(Value::Undefined));
    assert_eq!(ex.output(), &vec!["1".to_string(), "2".to_string(), "3".to_string()]);
}

#[test]
fn subtraction_chain_is_right_associative() {
    // 20 - 3 - 2 parses as 20 - (3 - 2) = 19, not (20 - 3) - 2 = 15.
    let (r, mut ex) = run(vec![
        t(TokenKind::Const, "const"),
        t(TokenKind::Ident, "x"),
        t(TokenKind::Assign, "="),
        t(TokenKind::Int, "20"),
        t(TokenKind::Minus, "-"),
        t(TokenKind::Int, "3"),
        t(TokenKind::Minus, "-"),
        t(TokenKind::Int, "2"),
        t(TokenKind::Eol, "\n"),
        t(TokenKind::Eof, ""),
    ]);
    assert_eq!(r, Ok(Value::Integer(19)));
    assert_eq!(ex.get_variable("x"), Some(Value::Integer(19)));
}

#[test]
fn division_by_zero_faults_and_binds_nothing() {
    let (r, mut ex) = run(vec![
        t(TokenKind::Const, "const"),
        t(TokenKind::Ident, "x"),
        t(TokenKind::Assign, "="),
        t(TokenKind::Int, "7"),
        t(TokenKind::Slash, "/"),
        t(TokenKind::Int, "0"),
        t(TokenKind::Eol, "\n"),
        t(TokenKind::Eof, ""),
    ]);
    assert_eq!(r, Err(RuntimeError::DivisionByZero));
    assert_eq!(ex.get_variable("x"), None);
}

#[test]
fn modulo_by_zero_faults() {
    let (r, _) = run(vec![
        t(TokenKind::Const, "const"),
        t(TokenKind::Ident, "x"),
        t(TokenKind::Assign, "="),
        t(TokenKind::Int, "7"),
        t(TokenKind::Percent, "%"),
        t(TokenKind::Int, "0"),
        t(TokenKind::Eol, "\n"),
        t(TokenKind::Eof, ""),
    ]);
    assert_eq!(r, Err(RuntimeError::DivisionByZero));
}

#[test]
fn integer_plus_boolean_is_type_mismatch() {
    let tokens = vec![
        t(TokenKind::Const, "const"),
        t(TokenKind::Ident, "x"),
        t(TokenKind::Assign, "="),
        t(TokenKind::Int, "3"),
        t(TokenKind::Plus, "+"),
        t(TokenKind::Ident, "t"),
        t(TokenKind::Eol, "\n"),
        t(TokenKind::Eof, ""),
    ];
    let mut parser = Parser::new(tokens);
    let program = parser.parse_program().expect("program should parse");
    let mut executor = Executor::new();
    executor.set_variable("t".to_string(), &Value::Boolean(true));
    let r = executor.execute(&program);
    assert_eq!(
        r,
        Err(RuntimeError::TypeMismatch {
            expected: RuntimeType::Integer,
            actual: RuntimeType::Boolean,
        })
    );
    assert_eq!(executor.get_variable("x"), None);
}

#[test]
fn empty_program_is_undefined_with_no_output() {
    let (r, ex) = run(vec![t(TokenKind::Eof, "")]);
    assert_eq!(r, Ok(Value::Undefined));
    assert!(ex.output().is_empty());
}

#[test]
fn blank_lines_are_empty_statements() {
    let (r, ex) = run(vec![
        t(TokenKind::Eol, "\n"),
        t(TokenKind::Eol, "\n"),
        t(TokenKind::Eof, ""),
    ]);
    assert_eq!(r, Ok(Value::Undefined));
    assert!(ex.output().is_empty());
}

#[test]
fn unterminated_group_is_a_parse_error() {
    // x = (1 + 2   — the group never closes; the parse fails where the
    // closing parenthesis should stand, at the end-of-input token.
    let tokens = vec![
        t(TokenKind::Const, "const"),
        t(TokenKind::Ident, "x"),
        t(TokenKind::Assign, "="),
        t(TokenKind::LParen, "("),
        t(TokenKind::Int, "1"),
        t(TokenKind::Plus, "+"),
        t(TokenKind::Int, "2"),
        t(TokenKind::Eof, ""),
    ];
    let mut parser = Parser::new(tokens);
    let r = parser.parse_program();
    match r {
        Err(ParseError::TokenInvalid(bad)) => assert_eq!(bad.kind, TokenKind::Eof),
        Ok(_) => panic!("parse should fail"),
    }
}

#[test]
fn missing_assignment_is_a_parse_error() {
    let tokens = vec![
        t(TokenKind::Const, "const"),
        t(TokenKind::Ident, "x"),
        t(TokenKind::Int, "5"),
        t(TokenKind::Eol, "\n"),
        t(TokenKind::Eof, ""),
    ];
    let mut parser = Parser::new(tokens);
    match parser.parse_program() {
        Err(ParseError::TokenInvalid(bad)) => assert_eq!(bad.kind, TokenKind::Int),
        Ok(_) => panic!("parse should fail"),
    }
}

#[test]
fn statement_must_end_at_end_of_line() {
    let tokens = vec![
        t(TokenKind::Const, "const"),
        t(TokenKind::Ident, "x"),
        t(TokenKind::Assign, "="),
        t(TokenKind::Int, "1"),
        t(TokenKind::Int, "2"),
        t(TokenKind::Eol, "\n"),
        t(TokenKind::Eof, ""),
    ];
    let mut parser = Parser::new(tokens);
    assert!(parser.parse_program().is_err());
}

#[test]
fn unknown_method_is_an_error() {
    // A call keyword whose text is not the print built-in's name parses,
    // but evaluation rejects the name.
    let (r, _) = run(vec![
        t(TokenKind::Print, "Frobnicate"),
        t(TokenKind::Int, "1"),
        t(TokenKind::Eol, "\n"),
        t(TokenKind::Eof, ""),
    ]);
    assert_eq!(r, Err(RuntimeError::UnknownMethod("Frobnicate".to_string())));
}

#[test]
fn rebinding_replaces_the_value() {
    let (r, mut ex) = run(vec![
        t(TokenKind::Const, "const"),
        t(TokenKind::Ident, "x"),
        t(TokenKind::Assign, "="),
        t(TokenKind::Int, "1"),
        t(TokenKind::Eol, "\n"),
        t(TokenKind::Const, "const"),
        t(TokenKind::Ident, "x"),
        t(TokenKind::Assign, "="),
        t(TokenKind::Int, "2"),
        t(TokenKind::Eol, "\n"),
        t(TokenKind::Eof, ""),
    ]);
    assert_eq!(r, Ok(Value::Integer(2)));
    assert_eq!(ex.get_variable("x"), Some(Value::Integer(2)));
}

#[test]
fn grouped_expression_binds_first() {
    // (1 + 2) * 3 = 9.
    let (r, _) = run(vec![
        t(TokenKind::Const, "const"),
        t(TokenKind::Ident, "x"),
        t(TokenKind::Assign, "="),
        t(TokenKind::LParen, "("),
        t(TokenKind::Int, "1"),
        t(TokenKind::Plus, "+"),
        t(TokenKind::Int, "2"),
        t(TokenKind::RParen, ")"),
        t(TokenKind::Asterisk, "*"),
        t(TokenKind::Int, "3"),
        t(TokenKind::Eol, "\n"),
        t(TokenKind::Eof, ""),
    ]);
    assert_eq!(r, Ok(Value::Integer(9)));
}

#[test]
fn division_truncates_toward_zero() {
    let (r, _) = run(vec![
        t(TokenKind::Const, "const"),
        t(TokenKind::Ident, "x"),
        t(TokenKind::Assign, "="),
        t(TokenKind::Int, "-7"),
        t(TokenKind::Slash, "/"),
        t(TokenKind::Int, "2"),
        t(TokenKind::Eol, "\n"),
        t(TokenKind::Eof, ""),
    ]);
    assert_eq!(r, Ok(Value::Integer(-3)));
}

#[test]
fn addition_wraps_in_32_bits() {
    let (r, _) = run(vec![
        t(TokenKind::Const, "const"),
        t(TokenKind::Ident, "x"),
        t(TokenKind::Assign, "="),
        t(TokenKind::Int, "2147483647"),
        t(TokenKind::Plus, "+"),
        t(TokenKind::Int, "1"),
        t(TokenKind::Eol, "\n"),
        t(TokenKind::Eof, ""),
    ]);
    assert_eq!(r, Ok(Value::Integer(i32::MIN)));
}

#[test]
fn print_renders_booleans_and_undefined() {
    let tokens = vec![
        t(TokenKind::Print, "Print"),
        t(TokenKind::Ident, "t"),
        t(TokenKind::Comma, ","),
        t(TokenKind::Ident, "f"),
        t(TokenKind::Comma, ","),
        t(TokenKind::Ident, "nothing"),
        t(TokenKind::Eol, "\n"),
        t(TokenKind::Eof, ""),
    ];
    let mut parser = Parser::new(tokens);
    let program = parser.parse_program().expect("program should parse");
    let mut executor = Executor::new();
    executor.set_variable("t".to_string(), &Value::Boolean(true));
    executor.set_variable("f".to_string(), &Value::Boolean(false));
    let r = executor.execute(&program);
    assert_eq!(r, Ok(Value::Undefined));
    assert_eq!(
        executor.output(),
        &vec!["true".to_string(), "false".to_string(), "undefined".to_string()]
    );
}

#[test]
fn output_before_an_error_stands() {
    // Print 1, 2 / 0, 3 — the first line is emitted, then the fault stops
    // everything; the third argument never prints.
    let (r, ex) = run(vec![
        t(TokenKind::Print, "Print"),
        t(TokenKind::Int, "1"),
        t(TokenKind::Comma, ","),
        t(TokenKind::Int, "2"),
        t(TokenKind::Slash, "/"),
        t(TokenKind::Int, "0"),
        t(TokenKind::Comma, ","),
        t(TokenKind::Int, "3"),
        t(TokenKind::Eol, "\n"),
        t(TokenKind::Eof, ""),
    ]);
    assert_eq!(r, Err(RuntimeError::DivisionByZero));
    assert_eq!(ex.output(), &vec!["1".to_string()]);
}

#[test]
fn plain_expression_line_fails_the_terminator_check() {
    // A line starting with anything but a keyword is an empty statement that
    // consumes nothing, so the statement does not end at the end of the line
    // and parsing fails.
    let tokens = vec![t(TokenKind::Ident, "x"), t(TokenKind::Eol, "\n"), t(TokenKind::Eof, "")];
    let mut parser = Parser::new(tokens);
    assert!(parser.parse_program().is_err());
}

#[test]
fn blank_lines_parse_as_empty_statements() {
    let tokens = vec![t(TokenKind::Eol, "\n"), t(TokenKind::Eof, "")];
    let mut parser = Parser::new(tokens);
    let program = parser.parse_program().expect("program should parse");
    assert_eq!(program.statements, vec![Statement::Empty]);
}
